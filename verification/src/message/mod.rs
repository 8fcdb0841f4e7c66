//! Message kinds shared by every protocol version, and the version
//! negotiation messages.

pub mod v1;

use vstd::prelude::*;

use crate::rpccore::{CodeConvert, CodeValueError};

verus! {

// ===========================================================================
// Requests
// ===========================================================================

/// Requests that every protocol version understands.
#[derive(Debug, PartialEq, Eq, Clone, Copy, Structural)]
pub enum AllRequestKind {
    /// Initiate a client session by requesting an API version.
    /// 
    /// Single argument: the protocol version number to use.
    Version,
}

impl CodeConvert for AllRequestKind {
    type int_type = u8;

    open spec fn spec_code(&self) -> u64 {
        match self {
            AllRequestKind::Version => 2,
        }
    }

    open spec fn spec_from_code(n: u64) -> Option<AllRequestKind> {
        if n == 2 {
            Some(AllRequestKind::Version)
        } else {
            None
        }
    }

    open spec fn spec_max_number() -> u64 {
        2
    }

    open spec fn spec_int_max() -> u64 {
        u8::MAX as u64
    }

    open spec fn spec_int_value(n: u8) -> u64 {
        n as u64
    }

    proof fn lemma_code_roundtrip(c: AllRequestKind) {
    }

    proof fn lemma_from_code(n: u64) {
    }

    fn from_number(num: u8) -> (r: Result<AllRequestKind, CodeValueError>) {
        assert(Self::spec_int_value(num) == num as u64);
        Self::from_u64(num as u64)
    }

    fn from_u64(num: u64) -> (r: Result<AllRequestKind, CodeValueError>) {
        match num {
            2 => Ok(AllRequestKind::Version),
            _ => Err(CodeValueError { code: num }),
        }
    }

    fn to_number(&self) -> (r: u8) {
        match self {
            AllRequestKind::Version => 2,
        }
    }

    fn to_u64(&self) -> (r: u64) {
        match self {
            AllRequestKind::Version => 2,
        }
    }

    fn max_number() -> (r: u64) {
        2
    }

    fn cast_number(n: u64) -> (r: Option<u8>) {
        if n <= u8::MAX as u64 {
            Some(n as u8)
        } else {
            None
        }
    }
}

/// A request kind of any protocol version.
#[derive(Debug)]
pub enum RequestKind {
    All(AllRequestKind),
    V1(v1::RequestKind),
}

// ===========================================================================
// Responses
// ===========================================================================

/// Responses that every protocol version understands.
#[derive(Debug, PartialEq, Eq, Clone, Copy, Structural)]
pub enum AllResponseKind {
    /// Any error that is generated in response to a request.
    /// 
    /// Single argument: the error message string.
    Error,
    /// Response to a session request whose version was accepted.
    /// 
    /// Single argument: the protocol version number that will be used.
    Version,
}

impl CodeConvert for AllResponseKind {
    type int_type = u8;

    open spec fn spec_code(&self) -> u64 {
        match self {
            AllResponseKind::Error => 1,
            AllResponseKind::Version => 3,
        }
    }

    open spec fn spec_from_code(n: u64) -> Option<AllResponseKind> {
        if n == 1 {
            Some(AllResponseKind::Error)
        } else if n == 3 {
            Some(AllResponseKind::Version)
        } else {
            None
        }
    }

    open spec fn spec_max_number() -> u64 {
        3
    }

    open spec fn spec_int_max() -> u64 {
        u8::MAX as u64
    }

    open spec fn spec_int_value(n: u8) -> u64 {
        n as u64
    }

    proof fn lemma_code_roundtrip(c: AllResponseKind) {
    }

    proof fn lemma_from_code(n: u64) {
    }

    fn from_number(num: u8) -> (r: Result<AllResponseKind, CodeValueError>) {
        assert(Self::spec_int_value(num) == num as u64);
        Self::from_u64(num as u64)
    }

    fn from_u64(num: u64) -> (r: Result<AllResponseKind, CodeValueError>) {
        match num {
            1 => Ok(AllResponseKind::Error),
            3 => Ok(AllResponseKind::Version),
            _ => Err(CodeValueError { code: num }),
        }
    }

    fn to_number(&self) -> (r: u8) {
        match self {
            AllResponseKind::Error => 1,
            AllResponseKind::Version => 3,
        }
    }

    fn to_u64(&self) -> (r: u64) {
        match self {
            AllResponseKind::Error => 1,
            AllResponseKind::Version => 3,
        }
    }

    fn max_number() -> (r: u64) {
        3
    }

    fn cast_number(n: u64) -> (r: Option<u8>) {
        if n <= u8::MAX as u64 {
            Some(n as u8)
        } else {
            None
        }
    }
}

/// A response kind of any protocol version.
#[derive(Debug)]
pub enum ResponseKind {
    All(AllResponseKind),
    V1(v1::ResponseKind),
}

// ===========================================================================
// Notifications
// ===========================================================================

/// Notifications that every protocol version understands.
#[derive(Debug, PartialEq, Eq, Clone, Copy, Structural)]
pub enum AllNotifyKind {
    /// No more requests will be made.
    /// 
    /// No arguments.
    Done,
}

impl CodeConvert for AllNotifyKind {
    type int_type = u8;

    open spec fn spec_code(&self) -> u64 {
        match self {
            AllNotifyKind::Done => 0,
        }
    }

    open spec fn spec_from_code(n: u64) -> Option<AllNotifyKind> {
        if n == 0 {
            Some(AllNotifyKind::Done)
        } else {
            None
        }
    }

    open spec fn spec_max_number() -> u64 {
        0
    }

    open spec fn spec_int_max() -> u64 {
        u8::MAX as u64
    }

    open spec fn spec_int_value(n: u8) -> u64 {
        n as u64
    }

    proof fn lemma_code_roundtrip(c: AllNotifyKind) {
    }

    proof fn lemma_from_code(n: u64) {
    }

    fn from_number(num: u8) -> (r: Result<AllNotifyKind, CodeValueError>) {
        assert(Self::spec_int_value(num) == num as u64);
        Self::from_u64(num as u64)
    }

    fn from_u64(num: u64) -> (r: Result<AllNotifyKind, CodeValueError>) {
        match num {
            0 => Ok(AllNotifyKind::Done),
            _ => Err(CodeValueError { code: num }),
        }
    }

    fn to_number(&self) -> (r: u8) {
        match self {
            AllNotifyKind::Done => 0,
        }
    }

    fn to_u64(&self) -> (r: u64) {
        match self {
            AllNotifyKind::Done => 0,
        }
    }

    fn max_number() -> (r: u64) {
        0
    }

    fn cast_number(n: u64) -> (r: Option<u8>) {
        if n <= u8::MAX as u64 {
            Some(n as u8)
        } else {
            None
        }
    }
}

/// A notification kind of any protocol version.
#[derive(Debug)]
pub enum NotifyKind {
    All(AllNotifyKind),
}

// ===========================================================================
// Version negotiation messages
// ===========================================================================

/// Request of a specific protocol version.
///
/// `category` holds a `MessageCategory` number and `kind` a request kind
/// number.
#[derive(Debug, PartialEq, Eq, Structural)]
pub struct VersionRequest {
    pub id: u32,
    pub category: u8,
    pub kind: u8,
    pub version: u32,
}

/// Response naming the protocol version that will be used.
///
/// `category` holds a `MessageCategory` number and `kind` a response kind
/// number.
#[derive(Debug, PartialEq, Eq, Structural)]
pub struct VersionResponse {
    pub id: u32,
    pub category: u8,
    pub kind: u8,
    pub version: u32,
}

/// Response to any request that generated an error.
#[derive(Debug, PartialEq)]
pub struct ErrorResponse {
    pub id: u32,
    pub category: u8,
    pub kind: u8,
    pub error_msg: String,
}

// ===========================================================================
// Messages of any version
// ===========================================================================

/// A request of any protocol version.
#[derive(Debug)]
pub enum RequestMessage {
    VersionRequest(VersionRequest),
    V1(v1::Request),
}

/// A response of any protocol version.
#[derive(Debug)]
pub enum ResponseMessage {
    VersionResponse(VersionResponse),
    ErrorResponse(ErrorResponse),
    V1(v1::Response),
}

} // verus!
