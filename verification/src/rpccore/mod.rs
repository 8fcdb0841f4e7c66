//! The base type of all RPC messages and the traits shared by every message.
//!
//! A [`Message`] wraps a [`Value`] that is known to be an array of 3 or 4
//! items whose first item is the number of a [`MessageType`] variant.

pub mod new;
pub mod notify;
pub mod request;
pub mod response;

use vstd::prelude::*;

use crate::text::{push_decimal, push_str, spec_decimal, string_of};
use crate::value::{value_type, value_type_name, view_items, Value, ValueV};

use self::notify::is_notice_value;
use self::request::is_request_value;
use self::response::is_response_value;

verus! {

// ===========================================================================
// check_int
// ===========================================================================

/// Error of [`check_int`].
#[derive(Debug)]
pub enum CheckIntError {
    /// There was no integer where one of the `expected` kind was wanted.
    MissingValue { expected: String },
    /// The integer (rendered in decimal as `value`) was above `max_value`.
    ValueTooBig { max_value: u64, value: String },
}

/// The mathematical form of a [`CheckIntError`].
pub enum CheckIntErrorV {
    MissingValue { expected: Seq<char> },
    ValueTooBig { max_value: u64, value: Seq<char> },
}

impl View for CheckIntError {
    type V = CheckIntErrorV;

    open spec fn view(&self) -> CheckIntErrorV {
        match self {
            CheckIntError::MissingValue { expected } => CheckIntErrorV::MissingValue {
                expected: expected@,
            },
            CheckIntError::ValueTooBig { max_value, value } => CheckIntErrorV::ValueTooBig {
                max_value: *max_value,
                value: value@,
            },
        }
    }
}

/// The text of a [`CheckIntError`].
pub open spec fn check_int_message(e: CheckIntErrorV) -> Seq<char> {
    match e {
        CheckIntErrorV::MissingValue { expected } => "Expected "@ + expected + " but got None"@,
        CheckIntErrorV::ValueTooBig { max_value, value } => "Expected value <= "@ + spec_decimal(
            max_value as nat,
        ) + " but got value "@ + value,
    }
}

impl CheckIntError {
    /// The error's text.
    pub fn to_string(&self) -> (r: String)
        ensures
            r@ == check_int_message(self@),
    {
        match self {
            CheckIntError::MissingValue { expected } => {
                let mut s = string_of("Expected ");
                push_str(&mut s, expected.as_str());
                push_str(&mut s, " but got None");
                s
            },
            CheckIntError::ValueTooBig { max_value, value } => {
                let mut s = string_of("Expected value <= ");
                push_decimal(&mut s, *max_value);
                push_str(&mut s, " but got value ");
                push_str(&mut s, value.as_str());
                s
            },
        }
    }
}

/// What [`check_int`] reports for a value, a maximum and the name of the
/// expected kind: `Ok` with the value when it is present and at most the
/// maximum, else the error.
pub open spec fn check_int_result(val: Option<u64>, max_value: u64, expected: Seq<char>) -> Result<
    u64,
    CheckIntErrorV,
> {
    match val {
        None => Err(CheckIntErrorV::MissingValue { expected }),
        Some(v) => if v > max_value {
            Err(CheckIntErrorV::ValueTooBig { max_value, value: spec_decimal(v as nat) })
        } else {
            Ok(v)
        },
    }
}

/// The mathematical form of a result that may hold a [`CheckIntError`].
pub open spec fn check_int_view(r: Result<u64, CheckIntError>) -> Result<u64, CheckIntErrorV> {
    match r {
        Ok(v) => Ok(v),
        Err(e) => Err(e@),
    }
}

/// Checks that an unsigned integer is present and fits below `max_value`.
///
/// # Errors
///
/// `MissingValue` when `val` is `None`; `ValueTooBig` when the value is
/// greater than `max_value`.
pub fn check_int(val: Option<u64>, max_value: u64, expected: String) -> (r: Result<
    u64,
    CheckIntError,
>)
    ensures
        check_int_view(r) == check_int_result(val, max_value, expected@),
{
    match val {
        None => Err(CheckIntError::MissingValue { expected: expected }),
        Some(v) => {
            if v > max_value {
                let value = crate::text::decimal(v);
                Err(CheckIntError::ValueTooBig { max_value: max_value, value: value })
            } else {
                Ok(v)
            }
        },
    }
}

// ===========================================================================
// CodeConvert
// ===========================================================================

/// Error of a number that is the code of no variant.
#[derive(Debug, PartialEq, Eq, Structural)]
pub struct CodeValueError {
    pub code: u64,
}

/// The text of a [`CodeValueError`].
pub open spec fn code_value_message(code: u64) -> Seq<char> {
    "Unknown code value: "@ + spec_decimal(code as nat)
}

impl CodeValueError {
    /// The error's text.
    pub fn to_string(&self) -> (r: String)
        ensures
            r@ == code_value_message(self.code),
    {
        let mut s = string_of("Unknown code value: ");
        push_decimal(&mut s, self.code);
        s
    }
}

/// Conversion between an enum of codes and the numbers that stand for its
/// variants.
///
/// Each variant has its own number (its code); `int_type` is the smallest
/// unsigned integer type that holds every code.
pub trait CodeConvert: Sized {
    type int_type;

    /// The code of this variant.
    spec fn spec_code(&self) -> u64;

    /// The variant whose code is `n`, if any.
    spec fn spec_from_code(n: u64) -> Option<Self>;

    /// The largest code.
    spec fn spec_max_number() -> u64;

    /// The largest number that `int_type` holds.
    spec fn spec_int_max() -> u64;

    /// The number that a value of `int_type` stands for.
    spec fn spec_int_value(n: Self::int_type) -> u64;

    /// The code of every variant leads back to that variant, and is at most
    /// the largest code.
    proof fn lemma_code_roundtrip(c: Self)
        ensures
            Self::spec_from_code(c.spec_code()) == Some(c),
            c.spec_code() <= Self::spec_max_number(),
    ;

    /// A number names a variant only if that variant's code is the number.
    proof fn lemma_from_code(n: u64)
        ensures
            Self::spec_from_code(n) matches Some(c) ==> c.spec_code() == n,
            Self::spec_max_number() <= Self::spec_int_max(),
    ;

    /// Convert a number to a variant.
    fn from_number(num: Self::int_type) -> (r: Result<Self, CodeValueError>)
        ensures
            match Self::spec_from_code(Self::spec_int_value(num)) {
                Some(c) => r == Ok::<Self, CodeValueError>(c),
                None => r == Err::<Self, CodeValueError>(
                    CodeValueError { code: Self::spec_int_value(num) },
                ),
            },
    ;

    /// Convert a u64 to a variant.
    fn from_u64(num: u64) -> (r: Result<Self, CodeValueError>)
        ensures
            match Self::spec_from_code(num) {
                Some(c) => r == Ok::<Self, CodeValueError>(c),
                None => r == Err::<Self, CodeValueError>(CodeValueError { code: num }),
            },
    ;

    /// Convert a variant to its number.
    fn to_number(&self) -> (r: Self::int_type)
        ensures
            Self::spec_int_value(r) == self.spec_code(),
    ;

    /// Convert a variant to its number as a u64.
    fn to_u64(&self) -> (r: u64)
        ensures
            r == self.spec_code(),
    ;

    /// Return the largest code.
    fn max_number() -> (r: u64)
        ensures
            r == Self::spec_max_number(),
    ;

    /// Cast a u64 into `int_type`, if it fits.
    fn cast_number(n: u64) -> (r: Option<Self::int_type>)
        ensures
            n <= Self::spec_int_max() ==> (r matches Some(x) && Self::spec_int_value(x) == n),
            n > Self::spec_int_max() ==> r is None,
    ;
}

// ===========================================================================
// MessageType
// ===========================================================================

/// The three kinds of message.
#[derive(Debug, PartialEq, Eq, Clone, Copy, Structural)]
pub enum MessageType {
    /// A message initiating a request.
    Request,
    /// A message sent in response to a request.
    Response,
    /// A message notifying of some additional information.
    Notification,
}

impl CodeConvert for MessageType {
    type int_type = u8;

    open spec fn spec_code(&self) -> u64 {
        match self {
            MessageType::Request => 0,
            MessageType::Response => 1,
            MessageType::Notification => 2,
        }
    }

    open spec fn spec_from_code(n: u64) -> Option<MessageType> {
        if n == 0 {
            Some(MessageType::Request)
        } else if n == 1 {
            Some(MessageType::Response)
        } else if n == 2 {
            Some(MessageType::Notification)
        } else {
            None
        }
    }

    open spec fn spec_max_number() -> u64 {
        2
    }

    open spec fn spec_int_max() -> u64 {
        u8::MAX as u64
    }

    open spec fn spec_int_value(n: u8) -> u64 {
        n as u64
    }

    proof fn lemma_code_roundtrip(c: MessageType) {
    }

    proof fn lemma_from_code(n: u64) {
    }

    fn from_number(num: u8) -> (r: Result<MessageType, CodeValueError>) {
        assert(Self::spec_int_value(num) == num as u64);
        Self::from_u64(num as u64)
    }

    fn from_u64(num: u64) -> (r: Result<MessageType, CodeValueError>) {
        assert(Self::spec_from_code(0) == Some(MessageType::Request));
        match num {
            0 => Ok(MessageType::Request),
            1 => Ok(MessageType::Response),
            2 => Ok(MessageType::Notification),
            _ => Err(CodeValueError { code: num }),
        }
    }

    fn to_number(&self) -> (r: u8) {
        match self {
            MessageType::Request => 0,
            MessageType::Response => 1,
            MessageType::Notification => 2,
        }
    }

    fn to_u64(&self) -> (r: u64) {
        match self {
            MessageType::Request => 0,
            MessageType::Response => 1,
            MessageType::Notification => 2,
        }
    }

    fn max_number() -> (r: u64) {
        2
    }

    fn cast_number(n: u64) -> (r: Option<u8>) {
        if n <= u8::MAX as u64 {
            Some(n as u8)
        } else {
            None
        }
    }
}

// ===========================================================================
// Message
// ===========================================================================

/// The number of the message type of a message value: its first item.
pub open spec fn message_type_code(v: ValueV) -> u64 {
    v.as_array()->0[0].as_u64()->0
}

/// A value that is a message: an array of 3 or 4 items whose first item is
/// the number of a message type.
pub open spec fn is_message_value(v: ValueV) -> bool {
    match v {
        ValueV::Array(a) => {
            &&& 3 <= a.len() <= 4
            &&& a[0].as_u64() matches Some(t)
            &&& t <= 2
        },
        _ => false,
    }
}

/// The items of a message value.
pub open spec fn message_items(v: ValueV) -> Seq<ValueV> {
    v.as_array()->0
}

/// Methods common to all RPC messages.
pub trait RpcMessage {
    /// The value that the message holds.
    spec fn message_value(&self) -> ValueV;

    /// View the message as a vector of values.
    fn as_vec(&self) -> (r: &Vec<Value>)
        ensures
            self.message_value() == ValueV::Array(view_items(r@)),
            is_message_value(self.message_value()),
    ;

    /// Return a reference to the value that the message holds.
    fn as_value(&self) -> (r: &Value)
        ensures
            r@ == self.message_value(),
            is_message_value(self.message_value()),
    ;

    /// Return the message's type.
    fn message_type(&self) -> (r: MessageType)
        ensures
            r.spec_code() == message_type_code(self.message_value()),
    {
        let items = self.as_vec();
        proof {
            assert(items@[0]@ == message_items(self.message_value())[0]);
        }
        let msgtype: u8 = match items[0].as_u64() {
            Some(v) => v as u8,
            None => 0,
        };
        match MessageType::from_number(msgtype) {
            Ok(t) => t,
            Err(_) => MessageType::Request,
        }
    }

    /// Return the name of the kind of a value.
    fn value_type_name(arg: &Value) -> (r: String)
        ensures
            r@ == value_type_name(arg@),
    {
        value_type(arg)
    }
}

/// Methods common to all RPC message types.
pub trait RpcMessageType {
    /// The message that the typed message holds.
    spec fn inner_message(&self) -> Message;

    /// Return a reference to the inner message.
    fn as_message(&self) -> (r: &Message)
        ensures
            *r == self.inner_message(),
    ;
}

/// The base of all RPC messages: a value that has the shape of a message.
#[derive(Debug)]
pub struct Message {
    msg: Value,
}

impl Message {
    #[verifier::type_invariant]
    spec fn well_formed(self) -> bool {
        is_message_value(self.msg@)
    }
}

impl View for Message {
    type V = ValueV;

    /// The value that the message holds.
    closed spec fn view(&self) -> ValueV {
        self.msg@
    }
}

/// The errors of turning a value into a [`Message`].
#[derive(Debug)]
pub enum ToMessageError {
    /// The array does not have 3 or 4 items; its length.
    ArrayLength(usize),
    /// The first item is not a message type number.
    InvalidType(CheckIntError),
    /// The value is not an array; the name of its kind.
    NotArray(String),
}

/// The mathematical form of a [`ToMessageError`].
pub enum ToMessageErrorV {
    ArrayLength(nat),
    InvalidType(CheckIntErrorV),
    NotArray(Seq<char>),
}

impl View for ToMessageError {
    type V = ToMessageErrorV;

    open spec fn view(&self) -> ToMessageErrorV {
        match self {
            ToMessageError::ArrayLength(n) => ToMessageErrorV::ArrayLength(*n as nat),
            ToMessageError::InvalidType(e) => ToMessageErrorV::InvalidType(e@),
            ToMessageError::NotArray(s) => ToMessageErrorV::NotArray(s@),
        }
    }
}

/// The text of a [`ToMessageError`].
pub open spec fn to_message_message(e: ToMessageErrorV) -> Seq<char> {
    match e {
        ToMessageErrorV::ArrayLength(n) => "expected array length of either 3 or 4, got "@
            + spec_decimal(n),
        ToMessageErrorV::InvalidType(_) => "Invalid message type"@,
        ToMessageErrorV::NotArray(name) => "expected array but got "@ + name,
    }
}

impl ToMessageError {
    /// The error's text.
    pub fn to_string(&self) -> (r: String)
        ensures
            r@ == to_message_message(self@),
    {
        match self {
            ToMessageError::ArrayLength(n) => {
                let mut s = string_of("expected array length of either 3 or 4, got ");
                push_decimal(&mut s, *n as u64);
                s
            },
            ToMessageError::InvalidType(_) => string_of("Invalid message type"),
            ToMessageError::NotArray(name) => {
                let mut s = string_of("expected array but got ");
                push_str(&mut s, name.as_str());
                s
            },
        }
    }
}

/// The error that turning `v` into a message gives, if any.
///
/// The value must be an array of 3 or 4 items whose first item is an
/// unsigned integer no greater than the largest message type number.
pub open spec fn message_error(v: ValueV) -> Option<ToMessageErrorV> {
    match v {
        ValueV::Array(a) => if a.len() < 3 || a.len() > 4 {
            Some(ToMessageErrorV::ArrayLength(a.len()))
        } else {
            match check_int_result(a[0].as_u64(), 2, "u8"@) {
                Err(e) => Some(ToMessageErrorV::InvalidType(e)),
                Ok(_) => None,
            }
        },
        _ => Some(ToMessageErrorV::NotArray(value_type_name(v))),
    }
}

impl Message {
    /// Turns a value into a message.
    ///
    /// # Errors
    ///
    /// An error is returned if any of the following are true:
    ///
    /// 1. The value is not an array
    /// 2. The length of the array is less than 3 or greater than 4
    /// 3. The array's first item is not an unsigned integer
    /// 4. The array's first item is greater than the largest message type
    ///    number
    pub fn from(val: Value) -> (r: Result<Message, ToMessageError>)
        ensures
            match r {
                Ok(m) => m@ == val@ && message_error(val@) is None,
                Err(e) => message_error(val@) == Some(e@),
            },
    {
        let arraylen = match val.as_array() {
            Some(array) => array.len(),
            None => {
                return Err(ToMessageError::NotArray(value_type(&val)));
            },
        };
        if arraylen < 3 || arraylen > 4 {
            return Err(ToMessageError::ArrayLength(arraylen));
        }
        let first = match val.as_array() {
            Some(array) => {
                proof {
                    assert(array@[0]@ == val@.as_array()->0[0]);
                }
                array[0].as_u64()
            },
            None => None,
        };
        let max = MessageType::max_number();
        match check_int(first, max, string_of("u8")) {
            Err(e) => Err(ToMessageError::InvalidType(e)),
            Ok(_) => Ok(Message { msg: val }),
        }
    }

    /// Gives back the value that the message holds.
    pub fn into_value(self) -> (r: Value)
        ensures
            r@ == self@,
            is_message_value(r@),
    {
        proof {
            use_type_invariant(&self);
        }
        self.msg
    }
}

impl Message {
    /// Wraps a value that already has the shape of a message.
    pub(crate) fn from_valid(val: Value) -> (r: Message)
        requires
            is_message_value(val@),
        ensures
            r@ == val@,
    {
        Message { msg: val }
    }
}

impl RpcMessage for Message {
    open spec fn message_value(&self) -> ValueV {
        self@
    }

    fn as_vec(&self) -> (r: &Vec<Value>) {
        proof {
            use_type_invariant(self);
        }
        let r = self.msg.as_array().unwrap();
        assert(self.message_value() == self.msg@);
        r
    }

    fn as_value(&self) -> (r: &Value) {
        proof {
            use_type_invariant(self);
        }
        &self.msg
    }
}

impl Clone for Message {
    fn clone(&self) -> (r: Self)
        ensures
            r@ == self@,
    {
        proof {
            use_type_invariant(self);
        }
        Message { msg: self.msg.clone() }
    }
}


// ===========================================================================
// Laws
// ===========================================================================

/// A value is turned into a message exactly when it has the shape of one:
/// an array of 3 or 4 items whose first item is a message type number.
pub proof fn lemma_message_shape(v: ValueV)
    ensures
        (message_error(v) is None) == is_message_value(v),
{
}

/// A message has one type only: a valid request is neither a valid response
/// nor a valid notification, and a valid response is not a valid
/// notification, whatever their codes.
pub proof fn lemma_message_kinds_disjoint<A: CodeConvert, B: CodeConvert, D: CodeConvert>(v: ValueV)
    ensures
        is_request_value::<A>(v) ==> !is_response_value::<B>(v) && !is_notice_value::<D>(v),
        is_response_value::<B>(v) ==> !is_notice_value::<D>(v),
{
}

/// A number is at most a `check_int` maximum exactly when the check passes,
/// and then the check gives the number back.
pub proof fn lemma_check_int_accepts(val: Option<u64>, max_value: u64, expected: Seq<char>)
    ensures
        check_int_result(val, max_value, expected) is Ok <==> (val matches Some(v) && v <= max_value),
        check_int_result(val, max_value, expected) matches Ok(n) ==> val == Some(n),
{
}

} // verus!
