//! The Notification RPC message type.
//!
//! A notification is an array of 3 items:
//!
//! 1. Message type: always the number of `MessageType::Notification`.
//! 2. Message code: the code of the notice being made.
//! 3. Message arguments: an array of values.

use vstd::prelude::*;

use core::marker::PhantomData;

use crate::rpccore::{
    check_int, check_int_result, is_message_value, message_items, CheckIntError, CheckIntErrorV,
    CodeConvert, Message, MessageType, RpcMessage, RpcMessageType, ToMessageError,
    ToMessageErrorV,
};
use crate::text::{push_decimal, push_str, spec_decimal, string_of};
use crate::value::{value_type, value_type_name, view_items, Value, ValueV};

verus! {

// ===========================================================================
// Errors
// ===========================================================================

/// The message type of a would-be notification is not `Notification`.
#[derive(Debug, PartialEq, Eq, Structural)]
pub struct NoticeTypeError {
    pub expected_type: u8,
    pub msgtype: u8,
}

/// The text of a [`NoticeTypeError`].
pub open spec fn notice_type_message(e: NoticeTypeError) -> Seq<char> {
    "Expected notification message type value "@ + spec_decimal(e.expected_type as nat)
        + ", got "@ + spec_decimal(e.msgtype as nat)
}

impl NoticeTypeError {
    /// The error's text.
    pub fn to_string(&self) -> (r: String)
        ensures
            r@ == notice_type_message(*self),
    {
        let mut s = string_of("Expected notification message type value ");
        push_decimal(&mut s, self.expected_type as u64);
        push_str(&mut s, ", got ");
        push_decimal(&mut s, self.msgtype as u64);
        s
    }
}

/// The code item of a would-be notification is not a notice code.
#[derive(Debug)]
pub enum NoticeCodeError {
    /// The item is not an integer at most the largest code.
    InvalidValue(CheckIntError),
    /// The number does not fit the code type's integer type.
    ToNumber(u64),
    /// The number is the code of no notice.
    ToCode(u64),
}

/// The mathematical form of a [`NoticeCodeError`].
pub enum NoticeCodeErrorV {
    InvalidValue(CheckIntErrorV),
    ToNumber(u64),
    ToCode(u64),
}

impl View for NoticeCodeError {
    type V = NoticeCodeErrorV;

    open spec fn view(&self) -> NoticeCodeErrorV {
        match self {
            NoticeCodeError::InvalidValue(e) => NoticeCodeErrorV::InvalidValue(e@),
            NoticeCodeError::ToNumber(n) => NoticeCodeErrorV::ToNumber(*n),
            NoticeCodeError::ToCode(n) => NoticeCodeErrorV::ToCode(*n),
        }
    }
}

/// The text of a [`NoticeCodeError`].
pub open spec fn notice_code_message(e: NoticeCodeErrorV) -> Seq<char> {
    match e {
        NoticeCodeErrorV::InvalidValue(_) => "Invalid notification code value"@,
        NoticeCodeErrorV::ToNumber(n) => "Cannot cast "@ + spec_decimal(n as nat)
            + " into notification code value"@,
        NoticeCodeErrorV::ToCode(n) => "Cannot convert method value "@ + spec_decimal(n as nat)
            + " into notification code"@,
    }
}

impl NoticeCodeError {
    /// The error's text.
    pub fn to_string(&self) -> (r: String)
        ensures
            r@ == notice_code_message(self@),
    {
        match self {
            NoticeCodeError::InvalidValue(_) => string_of("Invalid notification code value"),
            NoticeCodeError::ToNumber(n) => {
                let mut s = string_of("Cannot cast ");
                push_decimal(&mut s, *n);
                push_str(&mut s, " into notification code value");
                s
            },
            NoticeCodeError::ToCode(n) => {
                let mut s = string_of("Cannot convert method value ");
                push_decimal(&mut s, *n);
                push_str(&mut s, " into notification code");
                s
            },
        }
    }
}

/// The arguments item of a would-be notification is not an array.
#[derive(Debug)]
pub struct NoticeArgsError {
    /// The name of the kind of the item.
    pub value_type: String,
}

/// The text of a [`NoticeArgsError`] whose item is of the kind `name`.
pub open spec fn notice_args_message(name: Seq<char>) -> Seq<char> {
    "Expected array for notification arguments but got "@ + name
}

impl NoticeArgsError {
    /// The error's text.
    pub fn to_string(&self) -> (r: String)
        ensures
            r@ == notice_args_message(self.value_type@),
    {
        let mut s = string_of("Expected array for notification arguments but got ");
        push_str(&mut s, self.value_type.as_str());
        s
    }
}

/// The errors of turning a message into a notification.
#[derive(Debug)]
pub enum ToNoticeError {
    /// The message does not have 3 items; its length.
    ArrayLength(usize),
    InvalidType(NoticeTypeError),
    InvalidCode(NoticeCodeError),
    InvalidArgs(NoticeArgsError),
    MessageError(ToMessageError),
}

/// The mathematical form of a [`ToNoticeError`].
pub enum ToNoticeErrorV {
    ArrayLength(nat),
    InvalidType(NoticeTypeError),
    InvalidCode(NoticeCodeErrorV),
    InvalidArgs(Seq<char>),
    MessageError(ToMessageErrorV),
}

impl View for ToNoticeError {
    type V = ToNoticeErrorV;

    open spec fn view(&self) -> ToNoticeErrorV {
        match self {
            ToNoticeError::ArrayLength(n) => ToNoticeErrorV::ArrayLength(*n as nat),
            ToNoticeError::InvalidType(e) => ToNoticeErrorV::InvalidType(*e),
            ToNoticeError::InvalidCode(e) => ToNoticeErrorV::InvalidCode(e@),
            ToNoticeError::InvalidArgs(e) => ToNoticeErrorV::InvalidArgs(e.value_type@),
            ToNoticeError::MessageError(e) => ToNoticeErrorV::MessageError(e@),
        }
    }
}

/// The text of a [`ToNoticeError`].
pub open spec fn to_notice_message(e: ToNoticeErrorV) -> Seq<char> {
    match e {
        ToNoticeErrorV::ArrayLength(n) => "Expected array length of 3, got "@ + spec_decimal(n),
        ToNoticeErrorV::InvalidType(_) => "Invalid notification message type"@,
        ToNoticeErrorV::InvalidCode(_) => "Invalid notification message code"@,
        ToNoticeErrorV::InvalidArgs(_) => "Invalid notification message arguments"@,
        ToNoticeErrorV::MessageError(_) => "Unable to convert message"@,
    }
}

impl ToNoticeError {
    /// The error's text.
    pub fn to_string(&self) -> (r: String)
        ensures
            r@ == to_notice_message(self@),
    {
        match self {
            ToNoticeError::ArrayLength(n) => {
                let mut s = string_of("Expected array length of 3, got ");
                push_decimal(&mut s, *n as u64);
                s
            },
            ToNoticeError::InvalidType(_) => string_of("Invalid notification message type"),
            ToNoticeError::InvalidCode(_) => string_of("Invalid notification message code"),
            ToNoticeError::InvalidArgs(_) => string_of("Invalid notification message arguments"),
            ToNoticeError::MessageError(_) => string_of("Unable to convert message"),
        }
    }

    /// Wraps an error of turning a value into a message.
    pub fn from_message_error(e: ToMessageError) -> (r: ToNoticeError)
        ensures
            r@ == ToNoticeErrorV::MessageError(e@),
    {
        ToNoticeError::MessageError(e)
    }
}

// ===========================================================================
// Specification of a notification
// ===========================================================================

/// The error that checking the code item `v` of a would-be notification
/// gives, if any.
pub open spec fn notice_code_error<C: CodeConvert>(v: ValueV) -> Option<NoticeCodeErrorV> {
    match check_int_result(v.as_u64(), C::spec_max_number(), "a value"@) {
        Err(e) => Some(NoticeCodeErrorV::InvalidValue(e)),
        Ok(n) => if n > C::spec_int_max() {
            Some(NoticeCodeErrorV::ToNumber(n))
        } else if C::spec_from_code(n) is None {
            Some(NoticeCodeErrorV::ToCode(n))
        } else {
            None
        },
    }
}

/// The error that turning the message value `v` into a notification gives,
/// if any. The checks are made in the order of the items.
pub open spec fn notice_error<C: CodeConvert>(v: ValueV) -> Option<ToNoticeErrorV> {
    let items = message_items(v);
    if items.len() != 3 {
        Some(ToNoticeErrorV::ArrayLength(items.len()))
    } else if items[0].as_u64()->0 != 2 {
        Some(
            ToNoticeErrorV::InvalidType(
                NoticeTypeError { expected_type: 2, msgtype: items[0].as_u64()->0 as u8 },
            ),
        )
    } else if notice_code_error::<C>(items[1]) is Some {
        Some(ToNoticeErrorV::InvalidCode(notice_code_error::<C>(items[1])->0))
    } else if !(items[2] is Array) {
        Some(ToNoticeErrorV::InvalidArgs(value_type_name(items[2])))
    } else {
        None
    }
}

/// A message value that is a notification whose code is a code of `C`.
pub open spec fn is_notice_value<C: CodeConvert>(v: ValueV) -> bool {
    is_message_value(v) && notice_error::<C>(v) is None
}

/// The message value of a new notification.
pub open spec fn notice_value(code: u64, args: Seq<ValueV>) -> ValueV {
    ValueV::Array(seq![ValueV::uint(2), ValueV::uint(code), ValueV::Array(args)])
}

// ===========================================================================
// NotificationMessage
// ===========================================================================

/// Getters of the items of a notification.
pub trait RpcNotice<C: CodeConvert>: RpcMessage {
    /// Return the message's code.
    fn message_code(&self) -> (r: C)
        ensures
            is_notice_value::<C>(self.message_value()),
            C::spec_from_code(message_items(self.message_value())[1].as_u64()->0) == Some(r),
    ;

    /// Return the message's arguments.
    fn message_args(&self) -> (r: &Vec<Value>)
        ensures
            is_notice_value::<C>(self.message_value()),
            message_items(self.message_value())[2] == ValueV::Array(view_items(r@)),
    ;
}

/// A notification message whose codes are of type `C`.
#[derive(Debug)]
pub struct NotificationMessage<C: CodeConvert> {
    msg: Message,
    msgtype: PhantomData<C>,
}

impl<C: CodeConvert> NotificationMessage<C> {
    #[verifier::type_invariant]
    spec fn well_formed(self) -> bool {
        is_notice_value::<C>(self.msg@)
    }
}

impl<C: CodeConvert> View for NotificationMessage<C> {
    type V = ValueV;

    closed spec fn view(&self) -> ValueV {
        self.msg@
    }
}

impl<C: CodeConvert> RpcMessage for NotificationMessage<C> {
    open spec fn message_value(&self) -> ValueV {
        self@
    }

    fn as_vec(&self) -> (r: &Vec<Value>) {
        self.msg.as_vec()
    }

    fn as_value(&self) -> (r: &Value) {
        self.msg.as_value()
    }
}

impl<C: CodeConvert> RpcMessageType for NotificationMessage<C> {
    closed spec fn inner_message(&self) -> Message {
        self.msg
    }

    fn as_message(&self) -> (r: &Message)
        ensures
            r@ == self@,
    {
        &self.msg
    }
}

impl<C: CodeConvert> NotificationMessage<C> {
    /// The items of the notification, with the facts that its invariant
    /// gives.
    fn items(&self) -> (r: &Vec<Value>)
        ensures
            is_notice_value::<C>(self@),
            view_items(r@) == message_items(self@),
            r@.len() == 3,
    {
        proof {
            use_type_invariant(self);
        }
        let r = self.msg.as_vec();
        proof {
            assert(view_items(r@).len() == r@.len());
        }
        r
    }
}

impl<C: CodeConvert> RpcNotice<C> for NotificationMessage<C> {
    fn message_code(&self) -> (r: C) {
        let items = self.items();
        proof {
            assert(items@[1]@ == message_items(self@)[1]);
        }
        let code = match items[1].as_u64() {
            Some(v) => v,
            None => 0,
        };
        proof {
            C::lemma_from_code(code);
        }
        let num = C::cast_number(code).unwrap();
        C::from_number(num).unwrap()
    }

    fn message_args(&self) -> (r: &Vec<Value>) {
        let items = self.items();
        proof {
            assert(items@[2]@ == message_items(self@)[2]);
        }
        items[2].as_array().unwrap()
    }
}

impl<C: CodeConvert> NotificationMessage<C> {
    /// Creates a new notification from its code and arguments.
    pub fn new(notifycode: C, args: Vec<Value>) -> (r: Self)
        ensures
            r@ == notice_value(notifycode.spec_code(), view_items(args@)),
    {
        let code = notifycode.to_u64();
        let mut items: Vec<Value> = Vec::new();
        items.push(Value::from_u64(MessageType::Notification.to_u64()));
        items.push(Value::from_u64(code));
        items.push(Value::from_array(args));
        let val = Value::from_array(items);
        proof {
            C::lemma_code_roundtrip(notifycode);
            C::lemma_from_code(code);
            assert(view_items(items@) =~= message_items(notice_value(code, view_items(args@))));
        }
        let msg = Message::from_valid(val);
        NotificationMessage { msg: msg, msgtype: PhantomData }
    }

    /// Turns a message into a notification.
    ///
    /// # Errors
    ///
    /// An error is returned, for the first of these that holds:
    ///
    /// 1. The message is an array with a length other than 3
    /// 2. The message's type item is not the notification type
    /// 3. The message's code item is not a code of `C`
    /// 4. The message's arguments item is not an array
    pub fn from(msg: Message) -> (r: Result<Self, ToNoticeError>)
        ensures
            match r {
                Ok(n) => n@ == msg@ && notice_error::<C>(msg@) is None,
                Err(e) => notice_error::<C>(msg@) == Some(e@),
            },
    {
        {
            let array = msg.as_vec();
            let arraylen = array.len();
            proof {
                assert(view_items(array@).len() == array@.len());
            }
            if arraylen != 3 {
                return Err(ToNoticeError::ArrayLength(arraylen));
            }
            proof {
                assert(array@[0]@ == message_items(msg@)[0]);
                assert(array@[1]@ == message_items(msg@)[1]);
                assert(array@[2]@ == message_items(msg@)[2]);
            }
            if let Err(e) = Self::check_message_type(&array[0]) {
                return Err(ToNoticeError::InvalidType(e));
            }
            if let Err(e) = Self::check_message_code(&array[1]) {
                return Err(ToNoticeError::InvalidCode(e));
            }
            if let Err(e) = Self::check_message_args(&array[2]) {
                return Err(ToNoticeError::InvalidArgs(e));
            }
        }
        Ok(NotificationMessage { msg: msg, msgtype: PhantomData })
    }

    // Checks that the message type item of a notification is the
    // notification type.
    fn check_message_type(msgtype: &Value) -> (r: Result<(), NoticeTypeError>)
        requires
            msgtype@.as_u64() matches Some(t) && t <= 2,
        ensures
            match r {
                Ok(_) => msgtype@.as_u64() == Some(2u64),
                Err(e) => msgtype@.as_u64() != Some(2u64) && e == NoticeTypeError {
                    expected_type: 2,
                    msgtype: msgtype@.as_u64()->0 as u8,
                },
            },
    {
        let msgtype = match msgtype.as_u64() {
            Some(v) => v as u8,
            None => 0,
        };
        let expected_msgtype = MessageType::Notification.to_number();
        if msgtype != expected_msgtype {
            Err(NoticeTypeError { expected_type: expected_msgtype, msgtype: msgtype })
        } else {
            Ok(())
        }
    }

    // Checks that the code item of a notification is a code of `C`.
    fn check_message_code(msgcode: &Value) -> (r: Result<(), NoticeCodeError>)
        ensures
            match r {
                Ok(_) => notice_code_error::<C>(msgcode@) is None,
                Err(e) => notice_code_error::<C>(msgcode@) == Some(e@),
            },
    {
        let code = match check_int(msgcode.as_u64(), C::max_number(), string_of("a value")) {
            Ok(v) => v,
            Err(e) => {
                return Err(NoticeCodeError::InvalidValue(e));
            },
        };
        let val = match C::cast_number(code) {
            Some(v) => v,
            None => {
                return Err(NoticeCodeError::ToNumber(code));
            },
        };
        match C::from_number(val) {
            Ok(_) => Ok(()),
            Err(_) => Err(NoticeCodeError::ToCode(code)),
        }
    }

    // Checks that the arguments item of a notification is an array.
    fn check_message_args(msgargs: &Value) -> (r: Result<(), NoticeArgsError>)
        ensures
            match r {
                Ok(_) => msgargs@ is Array,
                Err(e) => !(msgargs@ is Array) && e.value_type@ == value_type_name(msgargs@),
            },
    {
        if msgargs.is_array() {
            Ok(())
        } else {
            Err(NoticeArgsError { value_type: value_type(msgargs) })
        }
    }

    /// Gives back the inner message.
    pub fn into_message(self) -> (r: Message)
        ensures
            r@ == self@,
    {
        self.msg
    }
}

// ===========================================================================
// Laws
// ===========================================================================

/// A notification made from a code and arguments is a valid notification
/// message: turning it back into a notification succeeds, and its code and
/// arguments read back as those it was made with.
pub proof fn lemma_notice_roundtrip<C: CodeConvert>(code: C, args: Seq<ValueV>)
    ensures
        ({
            let v = notice_value(code.spec_code(), args);
            &&& is_message_value(v)
            &&& notice_error::<C>(v) is None
            &&& C::spec_from_code(message_items(v)[1].as_u64()->0) == Some(code)
            &&& message_items(v)[2] == ValueV::Array(args)
        }),
{
    C::lemma_code_roundtrip(code);
    C::lemma_from_code(code.spec_code());
}

} // verus!
