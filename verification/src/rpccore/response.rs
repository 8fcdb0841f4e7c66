//! The Response RPC message type.
//!
//! A response is an array of 4 items:
//!
//! 1. Message type: always the number of `MessageType::Response`.
//! 2. Message id: the u32 id of the request that is answered.
//! 3. Error code: the code of the outcome of the request.
//! 4. Message result: any value.

use vstd::prelude::*;

use core::marker::PhantomData;

use crate::rpccore::{
    check_int, check_int_result, is_message_value, message_items, CheckIntError, CheckIntErrorV,
    CodeConvert, Message, MessageType, RpcMessage, RpcMessageType, ToMessageError,
    ToMessageErrorV,
};
use crate::text::{push_decimal, push_str, spec_decimal, string_of};
use crate::value::{view_items, Value, ValueV};

verus! {

// ===========================================================================
// Errors
// ===========================================================================

/// The message type of a would-be response is not `Response`.
#[derive(Debug, PartialEq, Eq, Structural)]
pub struct ResponseTypeError {
    pub expected_type: u8,
    pub msgtype: u8,
}

/// The text of a [`ResponseTypeError`].
pub open spec fn response_type_message(e: ResponseTypeError) -> Seq<char> {
    "Expected response message type value "@ + spec_decimal(e.expected_type as nat) + ", got "@
        + spec_decimal(e.msgtype as nat)
}

impl ResponseTypeError {
    /// The error's text.
    pub fn to_string(&self) -> (r: String)
        ensures
            r@ == response_type_message(*self),
    {
        let mut s = string_of("Expected response message type value ");
        push_decimal(&mut s, self.expected_type as u64);
        push_str(&mut s, ", got ");
        push_decimal(&mut s, self.msgtype as u64);
        s
    }
}

/// The id item of a would-be response is not a u32.
#[derive(Debug)]
pub struct ResponseIDError {
    pub err: CheckIntError,
}

impl ResponseIDError {
    /// The error's text.
    pub fn to_string(&self) -> (r: String)
        ensures
            r@ == "Invalid response message id"@,
    {
        string_of("Invalid response message id")
    }
}

/// The error code item of a would-be response is not a code.
#[derive(Debug)]
pub enum ResponseCodeError {
    /// The item is not an integer at most the largest code.
    InvalidValue(CheckIntError),
    /// The number does not fit the code type's integer type.
    ToNumber(u64),
    /// The number is the code of no outcome.
    ToCode(u64),
}

/// The mathematical form of a [`ResponseCodeError`].
pub enum ResponseCodeErrorV {
    InvalidValue(CheckIntErrorV),
    ToNumber(u64),
    ToCode(u64),
}

impl View for ResponseCodeError {
    type V = ResponseCodeErrorV;

    open spec fn view(&self) -> ResponseCodeErrorV {
        match self {
            ResponseCodeError::InvalidValue(e) => ResponseCodeErrorV::InvalidValue(e@),
            ResponseCodeError::ToNumber(n) => ResponseCodeErrorV::ToNumber(*n),
            ResponseCodeError::ToCode(n) => ResponseCodeErrorV::ToCode(*n),
        }
    }
}

/// The text of a [`ResponseCodeError`].
pub open spec fn response_code_message(e: ResponseCodeErrorV) -> Seq<char> {
    match e {
        ResponseCodeErrorV::InvalidValue(_) => "Invalid response code value"@,
        ResponseCodeErrorV::ToNumber(n) => "Cannot cast "@ + spec_decimal(n as nat)
            + " into response method value"@,
        ResponseCodeErrorV::ToCode(n) => "Cannot convert method value "@ + spec_decimal(n as nat)
            + " into response code"@,
    }
}

impl ResponseCodeError {
    /// The error's text.
    pub fn to_string(&self) -> (r: String)
        ensures
            r@ == response_code_message(self@),
    {
        match self {
            ResponseCodeError::InvalidValue(_) => string_of("Invalid response code value"),
            ResponseCodeError::ToNumber(n) => {
                let mut s = string_of("Cannot cast ");
                push_decimal(&mut s, *n);
                push_str(&mut s, " into response method value");
                s
            },
            ResponseCodeError::ToCode(n) => {
                let mut s = string_of("Cannot convert method value ");
                push_decimal(&mut s, *n);
                push_str(&mut s, " into response code");
                s
            },
        }
    }
}

/// The errors of turning a message into a response.
#[derive(Debug)]
pub enum ToResponseError {
    /// The message does not have 4 items; its length.
    ArrayLength(usize),
    InvalidType(ResponseTypeError),
    InvalidID(CheckIntError),
    InvalidCode(ResponseCodeError),
    MessageError(ToMessageError),
}

/// The mathematical form of a [`ToResponseError`].
pub enum ToResponseErrorV {
    ArrayLength(nat),
    InvalidType(ResponseTypeError),
    InvalidID(CheckIntErrorV),
    InvalidCode(ResponseCodeErrorV),
    MessageError(ToMessageErrorV),
}

impl View for ToResponseError {
    type V = ToResponseErrorV;

    open spec fn view(&self) -> ToResponseErrorV {
        match self {
            ToResponseError::ArrayLength(n) => ToResponseErrorV::ArrayLength(*n as nat),
            ToResponseError::InvalidType(e) => ToResponseErrorV::InvalidType(*e),
            ToResponseError::InvalidID(e) => ToResponseErrorV::InvalidID(e@),
            ToResponseError::InvalidCode(e) => ToResponseErrorV::InvalidCode(e@),
            ToResponseError::MessageError(e) => ToResponseErrorV::MessageError(e@),
        }
    }
}

/// The text of a [`ToResponseError`].
pub open spec fn to_response_message(e: ToResponseErrorV) -> Seq<char> {
    match e {
        ToResponseErrorV::ArrayLength(n) => "Expected array length of 4, got "@ + spec_decimal(n),
        ToResponseErrorV::InvalidType(_) => "Invalid response message type"@,
        ToResponseErrorV::InvalidID(_) => "Invalid response message id"@,
        ToResponseErrorV::InvalidCode(_) => "Invalid response message code"@,
        ToResponseErrorV::MessageError(_) => "Unable to convert message"@,
    }
}

impl ToResponseError {
    /// The error's text.
    pub fn to_string(&self) -> (r: String)
        ensures
            r@ == to_response_message(self@),
    {
        match self {
            ToResponseError::ArrayLength(n) => {
                let mut s = string_of("Expected array length of 4, got ");
                push_decimal(&mut s, *n as u64);
                s
            },
            ToResponseError::InvalidType(_) => string_of("Invalid response message type"),
            ToResponseError::InvalidID(_) => string_of("Invalid response message id"),
            ToResponseError::InvalidCode(_) => string_of("Invalid response message code"),
            ToResponseError::MessageError(_) => string_of("Unable to convert message"),
        }
    }

    /// Wraps an error of turning a value into a message.
    pub fn from_message_error(e: ToMessageError) -> (r: ToResponseError)
        ensures
            r@ == ToResponseErrorV::MessageError(e@),
    {
        ToResponseError::MessageError(e)
    }
}

// ===========================================================================
// Specification of a response
// ===========================================================================

/// The error that checking the error code item `v` of a would-be response
/// gives, if any.
pub open spec fn response_code_error<C: CodeConvert>(v: ValueV) -> Option<ResponseCodeErrorV> {
    match check_int_result(v.as_u64(), C::spec_max_number(), "a value"@) {
        Err(e) => Some(ResponseCodeErrorV::InvalidValue(e)),
        Ok(n) => if n > C::spec_int_max() {
            Some(ResponseCodeErrorV::ToNumber(n))
        } else if C::spec_from_code(n) is None {
            Some(ResponseCodeErrorV::ToCode(n))
        } else {
            None
        },
    }
}

/// The error that turning the message value `v` into a response gives, if
/// any. The checks are made in the order of the items.
pub open spec fn response_error<C: CodeConvert>(v: ValueV) -> Option<ToResponseErrorV> {
    let items = message_items(v);
    if items.len() != 4 {
        Some(ToResponseErrorV::ArrayLength(items.len()))
    } else if items[0].as_u64()->0 != 1 {
        Some(
            ToResponseErrorV::InvalidType(
                ResponseTypeError { expected_type: 1, msgtype: items[0].as_u64()->0 as u8 },
            ),
        )
    } else if check_int_result(items[1].as_u64(), u32::MAX as u64, "u32"@) is Err {
        Some(
            ToResponseErrorV::InvalidID(
                check_int_result(items[1].as_u64(), u32::MAX as u64, "u32"@)->Err_0,
            ),
        )
    } else if response_code_error::<C>(items[2]) is Some {
        Some(ToResponseErrorV::InvalidCode(response_code_error::<C>(items[2])->0))
    } else {
        None
    }
}

/// A message value that is a response whose error code is a code of `C`.
pub open spec fn is_response_value<C: CodeConvert>(v: ValueV) -> bool {
    is_message_value(v) && response_error::<C>(v) is None
}

/// The message value of a new response.
pub open spec fn response_value(msgid: u32, code: u64, result: ValueV) -> ValueV {
    ValueV::Array(seq![ValueV::uint(1), ValueV::uint(msgid as u64), ValueV::uint(code), result])
}

// ===========================================================================
// ResponseMessage
// ===========================================================================

/// Getters of the items of a response.
pub trait RpcResponse<C: CodeConvert>: RpcMessage {
    /// Return the message's id.
    fn message_id(&self) -> (r: u32)
        ensures
            is_response_value::<C>(self.message_value()),
            message_items(self.message_value())[1].as_u64() == Some(r as u64),
    ;

    /// Return the message's error code.
    fn error_code(&self) -> (r: C)
        ensures
            is_response_value::<C>(self.message_value()),
            C::spec_from_code(message_items(self.message_value())[2].as_u64()->0) == Some(r),
    ;

    /// Return the message's result.
    fn result(&self) -> (r: &Value)
        ensures
            is_response_value::<C>(self.message_value()),
            message_items(self.message_value())[3] == r@,
    ;
}

/// A response message whose error codes are of type `C`.
#[derive(Debug)]
pub struct ResponseMessage<C: CodeConvert> {
    msg: Message,
    msgtype: PhantomData<C>,
}

impl<C: CodeConvert> ResponseMessage<C> {
    #[verifier::type_invariant]
    spec fn well_formed(self) -> bool {
        is_response_value::<C>(self.msg@)
    }
}

impl<C: CodeConvert> View for ResponseMessage<C> {
    type V = ValueV;

    closed spec fn view(&self) -> ValueV {
        self.msg@
    }
}

impl<C: CodeConvert> RpcMessage for ResponseMessage<C> {
    open spec fn message_value(&self) -> ValueV {
        self@
    }

    fn as_vec(&self) -> (r: &Vec<Value>) {
        self.msg.as_vec()
    }

    fn as_value(&self) -> (r: &Value) {
        self.msg.as_value()
    }
}

impl<C: CodeConvert> RpcMessageType for ResponseMessage<C> {
    closed spec fn inner_message(&self) -> Message {
        self.msg
    }

    fn as_message(&self) -> (r: &Message)
        ensures
            r@ == self@,
    {
        &self.msg
    }
}

impl<C: CodeConvert> ResponseMessage<C> {
    /// The items of the response, with the facts that its invariant gives.
    fn items(&self) -> (r: &Vec<Value>)
        ensures
            is_response_value::<C>(self@),
            view_items(r@) == message_items(self@),
            r@.len() == 4,
    {
        proof {
            use_type_invariant(self);
        }
        let r = self.msg.as_vec();
        proof {
            assert(view_items(r@).len() == r@.len());
        }
        r
    }
}

impl<C: CodeConvert> RpcResponse<C> for ResponseMessage<C> {
    fn message_id(&self) -> (r: u32) {
        let items = self.items();
        proof {
            assert(items@[1]@ == message_items(self@)[1]);
        }
        match items[1].as_u64() {
            Some(v) => v as u32,
            None => 0,
        }
    }

    fn error_code(&self) -> (r: C) {
        let items = self.items();
        proof {
            assert(items@[2]@ == message_items(self@)[2]);
        }
        let code = match items[2].as_u64() {
            Some(v) => v,
            None => 0,
        };
        proof {
            C::lemma_from_code(code);
        }
        let num = C::cast_number(code).unwrap();
        C::from_number(num).unwrap()
    }

    fn result(&self) -> (r: &Value) {
        let items = self.items();
        proof {
            assert(items@[3]@ == message_items(self@)[3]);
        }
        &items[3]
    }
}

impl<C: CodeConvert> ResponseMessage<C> {
    /// Creates a new response from the id of the request it answers, an
    /// error code and a result.
    pub fn new(msgid: u32, errcode: C, result: Value) -> (r: Self)
        ensures
            r@ == response_value(msgid, errcode.spec_code(), result@),
    {
        let code = errcode.to_u64();
        let ghost result_view = result@;
        let mut items: Vec<Value> = Vec::new();
        items.push(Value::from_u64(MessageType::Response.to_u64()));
        items.push(Value::from_u64(msgid as u64));
        items.push(Value::from_u64(code));
        items.push(result);
        let val = Value::from_array(items);
        proof {
            C::lemma_code_roundtrip(errcode);
            C::lemma_from_code(code);
            assert(view_items(items@) =~= message_items(response_value(msgid, code, result_view)));
        }
        let msg = Message::from_valid(val);
        ResponseMessage { msg: msg, msgtype: PhantomData }
    }

    /// Turns a message into a response.
    ///
    /// # Errors
    ///
    /// An error is returned, for the first of these that holds:
    ///
    /// 1. The message is an array with a length other than 4
    /// 2. The message's type item is not the response type
    /// 3. The message's id item is not a u32
    /// 4. The message's error code item is not a code of `C`
    pub fn from(msg: Message) -> (r: Result<Self, ToResponseError>)
        ensures
            match r {
                Ok(resp) => resp@ == msg@ && response_error::<C>(msg@) is None,
                Err(e) => response_error::<C>(msg@) == Some(e@),
            },
    {
        {
            let array = msg.as_vec();
            let arraylen = array.len();
            proof {
                assert(view_items(array@).len() == array@.len());
            }
            if arraylen != 4 {
                return Err(ToResponseError::ArrayLength(arraylen));
            }
            proof {
                assert(array@[0]@ == message_items(msg@)[0]);
                assert(array@[1]@ == message_items(msg@)[1]);
                assert(array@[2]@ == message_items(msg@)[2]);
            }
            if let Err(e) = Self::check_message_type(&array[0]) {
                return Err(ToResponseError::InvalidType(e));
            }
            if let Err(e) = Self::check_message_id(&array[1]) {
                let ResponseIDError { err } = e;
                return Err(ToResponseError::InvalidID(err));
            }
            if let Err(e) = Self::check_error_code(&array[2]) {
                return Err(ToResponseError::InvalidCode(e));
            }
        }
        Ok(ResponseMessage { msg: msg, msgtype: PhantomData })
    }

    // Checks that the message type item of a response is the response type.
    fn check_message_type(msgtype: &Value) -> (r: Result<(), ResponseTypeError>)
        requires
            msgtype@.as_u64() matches Some(t) && t <= 2,
        ensures
            match r {
                Ok(_) => msgtype@.as_u64() == Some(1u64),
                Err(e) => msgtype@.as_u64() != Some(1u64) && e == ResponseTypeError {
                    expected_type: 1,
                    msgtype: msgtype@.as_u64()->0 as u8,
                },
            },
    {
        let msgtype = match msgtype.as_u64() {
            Some(v) => v as u8,
            None => 0,
        };
        let expected_msgtype = MessageType::Response.to_number();
        if msgtype != expected_msgtype {
            Err(ResponseTypeError { expected_type: expected_msgtype, msgtype: msgtype })
        } else {
            Ok(())
        }
    }

    // Checks that the message id item of a response is a u32.
    fn check_message_id(msgid: &Value) -> (r: Result<(), ResponseIDError>)
        ensures
            match r {
                Ok(_) => check_int_result(msgid@.as_u64(), u32::MAX as u64, "u32"@) is Ok,
                Err(e) => check_int_result(msgid@.as_u64(), u32::MAX as u64, "u32"@) == Err::<
                    u64,
                    CheckIntErrorV,
                >(e.err@),
            },
    {
        match check_int(msgid.as_u64(), u32::MAX as u64, string_of("u32")) {
            Ok(_) => Ok(()),
            Err(e) => Err(ResponseIDError { err: e }),
        }
    }

    // Checks that the error code item of a response is a code of `C`.
    fn check_error_code(errcode: &Value) -> (r: Result<(), ResponseCodeError>)
        ensures
            match r {
                Ok(_) => response_code_error::<C>(errcode@) is None,
                Err(e) => response_code_error::<C>(errcode@) == Some(e@),
            },
    {
        let code = match check_int(errcode.as_u64(), C::max_number(), string_of("a value")) {
            Ok(v) => v,
            Err(e) => {
                return Err(ResponseCodeError::InvalidValue(e));
            },
        };
        let val = match C::cast_number(code) {
            Some(v) => v,
            None => {
                return Err(ResponseCodeError::ToNumber(code));
            },
        };
        match C::from_number(val) {
            Ok(_) => Ok(()),
            Err(_) => Err(ResponseCodeError::ToCode(code)),
        }
    }

    /// Gives back the inner message.
    pub fn into_message(self) -> (r: Message)
        ensures
            r@ == self@,
    {
        self.msg
    }
}

// ===========================================================================
// Laws
// ===========================================================================

/// A response made from an id, an error code and a result is a valid
/// response message: turning it back into a response succeeds, and its id,
/// error code and result read back as those it was made with.
pub proof fn lemma_response_roundtrip<C: CodeConvert>(msgid: u32, errcode: C, result: ValueV)
    ensures
        ({
            let v = response_value(msgid, errcode.spec_code(), result);
            &&& is_message_value(v)
            &&& response_error::<C>(v) is None
            &&& message_items(v)[1].as_u64() == Some(msgid as u64)
            &&& C::spec_from_code(message_items(v)[2].as_u64()->0) == Some(errcode)
            &&& message_items(v)[3] == result
        }),
{
    C::lemma_code_roundtrip(errcode);
    C::lemma_from_code(errcode.spec_code());
}

} // verus!
