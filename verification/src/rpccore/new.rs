//! Message categories, data payloads and the traits of typed messages.

use vstd::prelude::*;

pub use super::{CodeConvert, CodeValueError};

verus! {

/// The categories of messages.
#[derive(Debug, PartialEq, Eq, Clone, Copy, Structural)]
pub enum MessageCategory {
    /// A message initiating a request.
    Request,
    /// A message sent in response to a request.
    Response,
    /// A message notifying of some additional information.
    Notification,
}

impl CodeConvert for MessageCategory {
    type int_type = u8;

    open spec fn spec_code(&self) -> u64 {
        match self {
            MessageCategory::Request => 0,
            MessageCategory::Response => 1,
            MessageCategory::Notification => 2,
        }
    }

    open spec fn spec_from_code(n: u64) -> Option<MessageCategory> {
        if n == 0 {
            Some(MessageCategory::Request)
        } else if n == 1 {
            Some(MessageCategory::Response)
        } else if n == 2 {
            Some(MessageCategory::Notification)
        } else {
            None
        }
    }

    open spec fn spec_max_number() -> u64 {
        2
    }

    open spec fn spec_int_max() -> u64 {
        u8::MAX as u64
    }

    open spec fn spec_int_value(n: u8) -> u64 {
        n as u64
    }

    proof fn lemma_code_roundtrip(c: MessageCategory) {
    }

    proof fn lemma_from_code(n: u64) {
    }

    fn from_number(num: u8) -> (r: Result<MessageCategory, CodeValueError>) {
        assert(Self::spec_int_value(num) == num as u64);
        Self::from_u64(num as u64)
    }

    fn from_u64(num: u64) -> (r: Result<MessageCategory, CodeValueError>) {
        match num {
            0 => Ok(MessageCategory::Request),
            1 => Ok(MessageCategory::Response),
            2 => Ok(MessageCategory::Notification),
            _ => Err(CodeValueError { code: num }),
        }
    }

    fn to_number(&self) -> (r: u8) {
        match self {
            MessageCategory::Request => 0,
            MessageCategory::Response => 1,
            MessageCategory::Notification => 2,
        }
    }

    fn to_u64(&self) -> (r: u64) {
        match self {
            MessageCategory::Request => 0,
            MessageCategory::Response => 1,
            MessageCategory::Notification => 2,
        }
    }

    fn max_number() -> (r: u64) {
        2
    }

    fn cast_number(n: u64) -> (r: Option<u8>) {
        if n <= u8::MAX as u64 {
            Some(n as u8)
        } else {
            None
        }
    }
}

/// A point in time in UTC: seconds since the Unix epoch and the
/// nanoseconds within that second.
#[derive(Debug, PartialEq, Eq, Clone, Copy, Structural)]
pub struct DateTime {
    pub secs: i64,
    pub nanos: u32,
}

/// The data payload of a message.
#[derive(Debug, PartialEq, Eq)]
pub enum DataKind {
    U8(u8),
    U16(u16),
    U32(u32),
    U64(u64),
    String(String),
    DateTime(DateTime),
    List(Vec<DataKind>),
    ByteList(Vec<u8>),
}

impl DataKind {
    /// Whether the payload is a `U8`.
    pub fn is_u8(&self) -> (r: bool)
        ensures
            r == (self is U8),
    {
        match self {
            DataKind::U8(_) => true,
            _ => false,
        }
    }

    /// Whether the payload is a `U16`.
    pub fn is_u16(&self) -> (r: bool)
        ensures
            r == (self is U16),
    {
        match self {
            DataKind::U16(_) => true,
            _ => false,
        }
    }

    /// Whether the payload is a `U32`.
    pub fn is_u32(&self) -> (r: bool)
        ensures
            r == (self is U32),
    {
        match self {
            DataKind::U32(_) => true,
            _ => false,
        }
    }

    /// Whether the payload is a `U64`.
    pub fn is_u64(&self) -> (r: bool)
        ensures
            r == (self is U64),
    {
        match self {
            DataKind::U64(_) => true,
            _ => false,
        }
    }

    /// Whether the payload is a `String`.
    pub fn is_string(&self) -> (r: bool)
        ensures
            r == (self is String),
    {
        match self {
            DataKind::String(_) => true,
            _ => false,
        }
    }

    /// Whether the payload is a `DateTime`.
    pub fn is_datetime(&self) -> (r: bool)
        ensures
            r == (self is DateTime),
    {
        match self {
            DataKind::DateTime(_) => true,
            _ => false,
        }
    }

    /// Whether the payload is a `List`.
    pub fn is_list(&self) -> (r: bool)
        ensures
            r == (self is List),
    {
        match self {
            DataKind::List(_) => true,
            _ => false,
        }
    }

    /// Whether the payload is a `ByteList`.
    pub fn is_bytelist(&self) -> (r: bool)
        ensures
            r == (self is ByteList),
    {
        match self {
            DataKind::ByteList(_) => true,
            _ => false,
        }
    }
}

/// A message of some kind `T`, in some category, with a data payload.
pub trait Message<T: CodeConvert> {
    /// The message's category.
    fn category(&self) -> MessageCategory;

    /// The message's kind.
    fn kind(&self) -> T;

    /// The message's data payload.
    fn data(&self) -> DataKind;
}

/// A message that carries an identifier.
pub trait IdMessage<T: CodeConvert>: Message<T> {
    /// The message's identifier.
    fn id(&self) -> u32;
}

} // verus!
