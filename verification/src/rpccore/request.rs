//! The Request RPC message type.
//!
//! A request is an array of 4 items:
//!
//! 1. Message type: always the number of `MessageType::Request`.
//! 2. Message id: a u32 that is unique for the session.
//! 3. Message method: the code of the request being made.
//! 4. Message arguments: an array of values.

use vstd::prelude::*;

use core::marker::PhantomData;

use crate::rpccore::{
    check_int, check_int_message, check_int_result, is_message_value, message_items,
    CheckIntError, CheckIntErrorV, CodeConvert, Message, MessageType, RpcMessage, RpcMessageType,
    ToMessageError, ToMessageErrorV,
};
use crate::text::{push_decimal, push_str, spec_decimal, string_of};
use crate::value::{value_type, value_type_name, view_items, Value, ValueV};

verus! {

// ===========================================================================
// Errors
// ===========================================================================

/// The message type of a would-be request is not `Request`.
#[derive(Debug, PartialEq, Eq, Structural)]
pub struct RequestTypeError {
    pub expected_type: u8,
    pub msgtype: u8,
}

/// The text of a [`RequestTypeError`].
pub open spec fn request_type_message(e: RequestTypeError) -> Seq<char> {
    "expected request message type value "@ + spec_decimal(e.expected_type as nat) + ", got "@
        + spec_decimal(e.msgtype as nat)
}

impl RequestTypeError {
    /// The error's text.
    pub fn to_string(&self) -> (r: String)
        ensures
            r@ == request_type_message(*self),
    {
        let mut s = string_of("expected request message type value ");
        push_decimal(&mut s, self.expected_type as u64);
        push_str(&mut s, ", got ");
        push_decimal(&mut s, self.msgtype as u64);
        s
    }
}

/// The method item of a would-be request is not a method code.
#[derive(Debug)]
pub enum RequestCodeError {
    /// The item is not an integer at most the largest code.
    InvalidValue(CheckIntError),
    /// The number does not fit the code type's integer type.
    ToNumber(u64),
    /// The number is the code of no method.
    ToCode(u64),
}

/// The mathematical form of a [`RequestCodeError`].
pub enum RequestCodeErrorV {
    InvalidValue(CheckIntErrorV),
    ToNumber(u64),
    ToCode(u64),
}

impl View for RequestCodeError {
    type V = RequestCodeErrorV;

    open spec fn view(&self) -> RequestCodeErrorV {
        match self {
            RequestCodeError::InvalidValue(e) => RequestCodeErrorV::InvalidValue(e@),
            RequestCodeError::ToNumber(n) => RequestCodeErrorV::ToNumber(*n),
            RequestCodeError::ToCode(n) => RequestCodeErrorV::ToCode(*n),
        }
    }
}

/// The text of a [`RequestCodeError`].
pub open spec fn request_code_message(e: RequestCodeErrorV) -> Seq<char> {
    match e {
        RequestCodeErrorV::InvalidValue(_) => "Invalid request code value"@,
        RequestCodeErrorV::ToNumber(n) => "Cannot cast "@ + spec_decimal(n as nat)
            + " into request method value"@,
        RequestCodeErrorV::ToCode(n) => "Cannot convert method value "@ + spec_decimal(n as nat)
            + " into request code"@,
    }
}

impl RequestCodeError {
    /// The error's text.
    pub fn to_string(&self) -> (r: String)
        ensures
            r@ == request_code_message(self@),
    {
        match self {
            RequestCodeError::InvalidValue(_) => string_of("Invalid request code value"),
            RequestCodeError::ToNumber(n) => {
                let mut s = string_of("Cannot cast ");
                push_decimal(&mut s, *n);
                push_str(&mut s, " into request method value");
                s
            },
            RequestCodeError::ToCode(n) => {
                let mut s = string_of("Cannot convert method value ");
                push_decimal(&mut s, *n);
                push_str(&mut s, " into request code");
                s
            },
        }
    }
}

/// The arguments item of a would-be request is not an array.
#[derive(Debug)]
pub struct RequestArgsError {
    /// The name of the kind of the item.
    pub value_type: String,
}

/// The text of a [`RequestArgsError`] whose item is of the kind `name`.
pub open spec fn request_args_message(name: Seq<char>) -> Seq<char> {
    "Expected array for request arguments but got "@ + name
}

impl RequestArgsError {
    /// The error's text.
    pub fn to_string(&self) -> (r: String)
        ensures
            r@ == request_args_message(self.value_type@),
    {
        let mut s = string_of("Expected array for request arguments but got ");
        push_str(&mut s, self.value_type.as_str());
        s
    }
}

/// The errors of turning a message into a request.
#[derive(Debug)]
pub enum ToRequestError {
    /// The message does not have 4 items; its length.
    ArrayLength(usize),
    InvalidType(RequestTypeError),
    InvalidID(CheckIntError),
    InvalidCode(RequestCodeError),
    InvalidArgs(RequestArgsError),
    MessageError(ToMessageError),
}

/// The mathematical form of a [`ToRequestError`].
pub enum ToRequestErrorV {
    ArrayLength(nat),
    InvalidType(RequestTypeError),
    InvalidID(CheckIntErrorV),
    InvalidCode(RequestCodeErrorV),
    InvalidArgs(Seq<char>),
    MessageError(ToMessageErrorV),
}

impl View for ToRequestError {
    type V = ToRequestErrorV;

    open spec fn view(&self) -> ToRequestErrorV {
        match self {
            ToRequestError::ArrayLength(n) => ToRequestErrorV::ArrayLength(*n as nat),
            ToRequestError::InvalidType(e) => ToRequestErrorV::InvalidType(*e),
            ToRequestError::InvalidID(e) => ToRequestErrorV::InvalidID(e@),
            ToRequestError::InvalidCode(e) => ToRequestErrorV::InvalidCode(e@),
            ToRequestError::InvalidArgs(e) => ToRequestErrorV::InvalidArgs(e.value_type@),
            ToRequestError::MessageError(e) => ToRequestErrorV::MessageError(e@),
        }
    }
}

/// The text of a [`ToRequestError`].
pub open spec fn to_request_message(e: ToRequestErrorV) -> Seq<char> {
    match e {
        ToRequestErrorV::ArrayLength(n) => "expected array length of 4, got "@ + spec_decimal(n),
        ToRequestErrorV::InvalidType(_) => "Invalid request message type"@,
        ToRequestErrorV::InvalidID(_) => "Invalid request message id"@,
        ToRequestErrorV::InvalidCode(_) => "Invalid request message code"@,
        ToRequestErrorV::InvalidArgs(_) => "Invalid request message arguments"@,
        ToRequestErrorV::MessageError(_) => "Unable to convert message"@,
    }
}

impl ToRequestError {
    /// The error's text.
    pub fn to_string(&self) -> (r: String)
        ensures
            r@ == to_request_message(self@),
    {
        match self {
            ToRequestError::ArrayLength(n) => {
                let mut s = string_of("expected array length of 4, got ");
                push_decimal(&mut s, *n as u64);
                s
            },
            ToRequestError::InvalidType(_) => string_of("Invalid request message type"),
            ToRequestError::InvalidID(_) => string_of("Invalid request message id"),
            ToRequestError::InvalidCode(_) => string_of("Invalid request message code"),
            ToRequestError::InvalidArgs(_) => string_of("Invalid request message arguments"),
            ToRequestError::MessageError(_) => string_of("Unable to convert message"),
        }
    }

    /// Wraps an error of turning a value into a message.
    pub fn from_message_error(e: ToMessageError) -> (r: ToRequestError)
        ensures
            r@ == ToRequestErrorV::MessageError(e@),
    {
        ToRequestError::MessageError(e)
    }
}

// ===========================================================================
// Specification of a request
// ===========================================================================

/// The error that checking the method item `v` of a would-be request gives,
/// if any.
pub open spec fn request_code_error<C: CodeConvert>(v: ValueV) -> Option<RequestCodeErrorV> {
    match check_int_result(v.as_u64(), C::spec_max_number(), "a value"@) {
        Err(e) => Some(RequestCodeErrorV::InvalidValue(e)),
        Ok(n) => if n > C::spec_int_max() {
            Some(RequestCodeErrorV::ToNumber(n))
        } else if C::spec_from_code(n) is None {
            Some(RequestCodeErrorV::ToCode(n))
        } else {
            None
        },
    }
}

/// The error that turning the message value `v` into a request gives, if
/// any. The checks are made in the order of the items.
pub open spec fn request_error<C: CodeConvert>(v: ValueV) -> Option<ToRequestErrorV> {
    let items = message_items(v);
    if items.len() != 4 {
        Some(ToRequestErrorV::ArrayLength(items.len()))
    } else if items[0].as_u64()->0 != 0 {
        Some(
            ToRequestErrorV::InvalidType(
                RequestTypeError { expected_type: 0, msgtype: items[0].as_u64()->0 as u8 },
            ),
        )
    } else if check_int_result(items[1].as_u64(), u32::MAX as u64, "u32"@) is Err {
        Some(
            ToRequestErrorV::InvalidID(
                check_int_result(items[1].as_u64(), u32::MAX as u64, "u32"@)->Err_0,
            ),
        )
    } else if request_code_error::<C>(items[2]) is Some {
        Some(ToRequestErrorV::InvalidCode(request_code_error::<C>(items[2])->0))
    } else if !(items[3] is Array) {
        Some(ToRequestErrorV::InvalidArgs(value_type_name(items[3])))
    } else {
        None
    }
}

/// A message value that is a request whose method is a code of `C`.
pub open spec fn is_request_value<C: CodeConvert>(v: ValueV) -> bool {
    is_message_value(v) && request_error::<C>(v) is None
}

/// The message value of a new request.
pub open spec fn request_value<C: CodeConvert>(msgid: u32, code: u64, args: Seq<ValueV>) -> ValueV {
    ValueV::Array(seq![ValueV::uint(0), ValueV::uint(msgid as u64), ValueV::uint(code), ValueV::Array(args)])
}

// ===========================================================================
// RequestMessage
// ===========================================================================

/// Getters of the items of a request.
pub trait RpcRequest<C: CodeConvert>: RpcMessage {
    /// Return the message's id.
    fn message_id(&self) -> (r: u32)
        ensures
            is_request_value::<C>(self.message_value()),
            message_items(self.message_value())[1].as_u64() == Some(r as u64),
    ;

    /// Return the message's method.
    fn message_method(&self) -> (r: C)
        ensures
            is_request_value::<C>(self.message_value()),
            C::spec_from_code(message_items(self.message_value())[2].as_u64()->0) == Some(r),
    ;

    /// Return the message's arguments.
    fn message_args(&self) -> (r: &Vec<Value>)
        ensures
            is_request_value::<C>(self.message_value()),
            message_items(self.message_value())[3] == ValueV::Array(view_items(r@)),
    ;
}

/// A request message whose method codes are of type `C`.
#[derive(Debug)]
pub struct RequestMessage<C: CodeConvert> {
    msg: Message,
    codetype: PhantomData<C>,
}

impl<C: CodeConvert> RequestMessage<C> {
    #[verifier::type_invariant]
    spec fn well_formed(self) -> bool {
        is_request_value::<C>(self.msg@)
    }
}

impl<C: CodeConvert> View for RequestMessage<C> {
    type V = ValueV;

    closed spec fn view(&self) -> ValueV {
        self.msg@
    }
}

impl<C: CodeConvert> RpcMessage for RequestMessage<C> {
    open spec fn message_value(&self) -> ValueV {
        self@
    }

    fn as_vec(&self) -> (r: &Vec<Value>) {
        self.msg.as_vec()
    }

    fn as_value(&self) -> (r: &Value) {
        self.msg.as_value()
    }
}

impl<C: CodeConvert> RpcMessageType for RequestMessage<C> {
    closed spec fn inner_message(&self) -> Message {
        self.msg
    }

    fn as_message(&self) -> (r: &Message)
        ensures
            r@ == self@,
    {
        &self.msg
    }
}

impl<C: CodeConvert> RequestMessage<C> {
    /// The items of the request, with the facts that its invariant gives.
    fn items(&self) -> (r: &Vec<Value>)
        ensures
            is_request_value::<C>(self@),
            view_items(r@) == message_items(self@),
            r@.len() == 4,
    {
        proof {
            use_type_invariant(self);
        }
        let r = self.msg.as_vec();
        proof {
            assert(view_items(r@).len() == r@.len());
        }
        r
    }
}

impl<C: CodeConvert> RpcRequest<C> for RequestMessage<C> {
    fn message_id(&self) -> (r: u32) {
        let items = self.items();
        proof {
            assert(items@[1]@ == message_items(self@)[1]);
        }
        match items[1].as_u64() {
            Some(v) => v as u32,
            None => 0,
        }
    }

    fn message_method(&self) -> (r: C) {
        let items = self.items();
        proof {
            assert(items@[2]@ == message_items(self@)[2]);
        }
        let code = match items[2].as_u64() {
            Some(v) => v,
            None => 0,
        };
        proof {
            C::lemma_from_code(code);
        }
        let num = C::cast_number(code).unwrap();
        C::from_number(num).unwrap()
    }

    fn message_args(&self) -> (r: &Vec<Value>) {
        let items = self.items();
        proof {
            assert(items@[3]@ == message_items(self@)[3]);
        }
        items[3].as_array().unwrap()
    }
}

impl<C: CodeConvert> RequestMessage<C> {
    /// Creates a new request from its id, method and arguments.
    pub fn new(msgid: u32, msgmeth: C, args: Vec<Value>) -> (r: Self)
        ensures
            r@ == request_value::<C>(msgid, msgmeth.spec_code(), view_items(args@)),
    {
        let code = msgmeth.to_u64();
        let mut items: Vec<Value> = Vec::new();
        items.push(Value::from_u64(MessageType::Request.to_u64()));
        items.push(Value::from_u64(msgid as u64));
        items.push(Value::from_u64(code));
        items.push(Value::from_array(args));
        let val = Value::from_array(items);
        proof {
            C::lemma_code_roundtrip(msgmeth);
            C::lemma_from_code(code);
            assert(view_items(items@) =~= message_items(
                request_value::<C>(msgid, code, view_items(args@)),
            ));
        }
        let msg = Message::from_valid(val);
        RequestMessage { msg: msg, codetype: PhantomData }
    }

    /// Turns a message into a request.
    ///
    /// # Errors
    ///
    /// An error is returned, for the first of these that holds:
    ///
    /// 1. The message is an array with a length other than 4
    /// 2. The message's type item is not the request type
    /// 3. The message's id item is not a u32
    /// 4. The message's method item is not a code of `C`
    /// 5. The message's arguments item is not an array
    pub fn from(msg: Message) -> (r: Result<Self, ToRequestError>)
        ensures
            match r {
                Ok(req) => req@ == msg@ && request_error::<C>(msg@) is None,
                Err(e) => request_error::<C>(msg@) == Some(e@),
            },
    {
        {
            let array = msg.as_vec();
            let arraylen = array.len();
            proof {
                assert(view_items(array@).len() == array@.len());
            }
            if arraylen != 4 {
                return Err(ToRequestError::ArrayLength(arraylen));
            }
            proof {
                assert(array@[0]@ == message_items(msg@)[0]);
                assert(array@[1]@ == message_items(msg@)[1]);
                assert(array@[2]@ == message_items(msg@)[2]);
                assert(array@[3]@ == message_items(msg@)[3]);
            }
            if let Err(e) = Self::check_message_type(&array[0]) {
                return Err(ToRequestError::InvalidType(e));
            }
            if let Err(e) = Self::check_message_id(&array[1]) {
                return Err(ToRequestError::InvalidID(e));
            }
            if let Err(e) = Self::check_message_method(&array[2]) {
                return Err(ToRequestError::InvalidCode(e));
            }
            if let Err(e) = Self::check_message_args(&array[3]) {
                return Err(ToRequestError::InvalidArgs(e));
            }
        }
        Ok(RequestMessage { msg: msg, codetype: PhantomData })
    }

    // Checks that the message type item of a request is the request type.
    fn check_message_type(msgtype: &Value) -> (r: Result<(), RequestTypeError>)
        requires
            msgtype@.as_u64() matches Some(t) && t <= 2,
        ensures
            match r {
                Ok(_) => msgtype@.as_u64() == Some(0u64),
                Err(e) => msgtype@.as_u64() != Some(0u64) && e == RequestTypeError {
                    expected_type: 0,
                    msgtype: msgtype@.as_u64()->0 as u8,
                },
            },
    {
        let msgtype = match msgtype.as_u64() {
            Some(v) => v as u8,
            None => 0,
        };
        let expected_msgtype = MessageType::Request.to_number();
        if msgtype != expected_msgtype {
            Err(RequestTypeError { expected_type: expected_msgtype, msgtype: msgtype })
        } else {
            Ok(())
        }
    }

    // Checks that the message id item of a request is a u32.
    fn check_message_id(msgid: &Value) -> (r: Result<(), CheckIntError>)
        ensures
            match r {
                Ok(_) => check_int_result(msgid@.as_u64(), u32::MAX as u64, "u32"@) is Ok,
                Err(e) => check_int_result(msgid@.as_u64(), u32::MAX as u64, "u32"@) == Err::<
                    u64,
                    CheckIntErrorV,
                >(e@),
            },
    {
        match check_int(msgid.as_u64(), u32::MAX as u64, string_of("u32")) {
            Ok(_) => Ok(()),
            Err(e) => Err(e),
        }
    }

    // Checks that the method item of a request is a code of `C`.
    fn check_message_method(msgmeth: &Value) -> (r: Result<(), RequestCodeError>)
        ensures
            match r {
                Ok(_) => request_code_error::<C>(msgmeth@) is None,
                Err(e) => request_code_error::<C>(msgmeth@) == Some(e@),
            },
    {
        let code = match check_int(msgmeth.as_u64(), C::max_number(), string_of("a value")) {
            Ok(v) => v,
            Err(e) => {
                return Err(RequestCodeError::InvalidValue(e));
            },
        };
        let val = match C::cast_number(code) {
            Some(v) => v,
            None => {
                return Err(RequestCodeError::ToNumber(code));
            },
        };
        match C::from_number(val) {
            Ok(_) => Ok(()),
            Err(_) => Err(RequestCodeError::ToCode(code)),
        }
    }

    // Checks that the arguments item of a request is an array.
    fn check_message_args(msgargs: &Value) -> (r: Result<(), RequestArgsError>)
        ensures
            match r {
                Ok(_) => msgargs@ is Array,
                Err(e) => !(msgargs@ is Array) && e.value_type@ == value_type_name(msgargs@),
            },
    {
        if msgargs.is_array() {
            Ok(())
        } else {
            Err(RequestArgsError { value_type: value_type(msgargs) })
        }
    }

    /// Gives back the inner message.
    pub fn into_message(self) -> (r: Message)
        ensures
            r@ == self@,
    {
        self.msg
    }
}

// ===========================================================================
// Laws
// ===========================================================================

/// A request made from an id, a method and arguments is a valid request
/// message: turning it back into a request succeeds, and its id, method and
/// arguments read back as those it was made with.
pub proof fn lemma_request_roundtrip<C: CodeConvert>(msgid: u32, method: C, args: Seq<ValueV>)
    ensures
        ({
            let v = request_value::<C>(msgid, method.spec_code(), args);
            &&& is_message_value(v)
            &&& request_error::<C>(v) is None
            &&& message_items(v)[1].as_u64() == Some(msgid as u64)
            &&& C::spec_from_code(message_items(v)[2].as_u64()->0) == Some(method)
            &&& message_items(v)[3] == ValueV::Array(args)
        }),
{
    C::lemma_code_roundtrip(method);
    C::lemma_from_code(method.spec_code());
}

} // verus!
