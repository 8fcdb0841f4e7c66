//! Version 1 of the protocol: its request and response kinds, message
//! builders and file helpers.

pub mod request;
pub mod requestbuilder;
pub mod response;
pub mod responsebuilder;
pub mod util;

use vstd::prelude::*;

use crate::rpccore::request::RequestMessage;
use crate::rpccore::response::ResponseMessage;
use crate::rpccore::{CodeConvert, CodeValueError};

pub use self::requestbuilder::{
    request, BuildAttachError, BuildRequestError, CheckNameError, RequestBuilder,
};
pub use self::responsebuilder::{response, BuildResponseError, ProtocolResponse, ResponseBuilder};
pub use self::util::{
    openmode, FileID, FileKind, FileStat, FromStatError, OpenFlag, OpenKind, OpenMode,
    OpenModeBuilder, OpenModeError, ReadStat, StatData,
};


verus! {

// ===========================================================================
// Message codes
// ===========================================================================

/// The kinds of version 1 requests.
#[derive(Debug, PartialEq, Eq, Clone, Copy, Structural)]
pub enum RequestKind {
    /// Setup client authentication file.
    /// 
    /// Arguments: file id of the auth file, user name, service name.
    Auth,
    /// Abort a previous request if it has not been processed yet.
    /// 
    /// Single argument: the message id of the previous request.
    Flush,
    /// Attach to the root directory of a given service.
    /// 
    /// Arguments: file id of the root directory, file id of the auth file,
    /// user name, service name.
    Attach,
    /// Walk a directory hierarchy.
    /// 
    /// Arguments: existing file id, new file id of the walk result, list of
    /// path element strings to walk through.
    Walk,
    /// Prepare an existing file id for I/O.
    /// 
    /// Arguments: existing file id, mode.
    Open,
    /// Create a file and open it for I/O.
    /// 
    /// Arguments: existing file id, name of the new file, mode.
    Create,
    /// Request a number of bytes from a file.
    /// 
    /// Arguments: existing file id, starting offset, number of bytes.
    Read,
    /// Request that a number of bytes be recorded to a file.
    /// 
    /// Arguments: existing file id, starting offset, number of bytes, list of
    /// bytes.
    Write,
    /// Forget a file id.
    /// 
    /// Single argument: existing file id.
    Clunk,
    /// Remove a file from the server.
    /// 
    /// Single argument: existing file id.
    Remove,
    /// Retrieve file attributes.
    /// 
    /// Single argument: existing file id.
    Stat,
    /// Change file attributes.
    /// 
    /// Arguments: existing file id, map of new file attributes.
    WStat,
}

impl CodeConvert for RequestKind {
    type int_type = u8;

    open spec fn spec_code(&self) -> u64 {
        match self {
            RequestKind::Auth => 4,
            RequestKind::Flush => 6,
            RequestKind::Attach => 8,
            RequestKind::Walk => 10,
            RequestKind::Open => 12,
            RequestKind::Create => 14,
            RequestKind::Read => 16,
            RequestKind::Write => 18,
            RequestKind::Clunk => 20,
            RequestKind::Remove => 22,
            RequestKind::Stat => 24,
            RequestKind::WStat => 26,
        }
    }

    open spec fn spec_from_code(n: u64) -> Option<RequestKind> {
        if n == 4 {
            Some(RequestKind::Auth)
        } else if n == 6 {
            Some(RequestKind::Flush)
        } else if n == 8 {
            Some(RequestKind::Attach)
        } else if n == 10 {
            Some(RequestKind::Walk)
        } else if n == 12 {
            Some(RequestKind::Open)
        } else if n == 14 {
            Some(RequestKind::Create)
        } else if n == 16 {
            Some(RequestKind::Read)
        } else if n == 18 {
            Some(RequestKind::Write)
        } else if n == 20 {
            Some(RequestKind::Clunk)
        } else if n == 22 {
            Some(RequestKind::Remove)
        } else if n == 24 {
            Some(RequestKind::Stat)
        } else if n == 26 {
            Some(RequestKind::WStat)
        } else {
            None
        }
    }

    open spec fn spec_max_number() -> u64 {
        26
    }

    open spec fn spec_int_max() -> u64 {
        u8::MAX as u64
    }

    open spec fn spec_int_value(n: u8) -> u64 {
        n as u64
    }

    proof fn lemma_code_roundtrip(c: RequestKind) {
    }

    proof fn lemma_from_code(n: u64) {
    }

    fn from_number(num: u8) -> (r: Result<RequestKind, CodeValueError>) {
        assert(Self::spec_int_value(num) == num as u64);
        Self::from_u64(num as u64)
    }

    fn from_u64(num: u64) -> (r: Result<RequestKind, CodeValueError>) {
        match num {
            4 => Ok(RequestKind::Auth),
            6 => Ok(RequestKind::Flush),
            8 => Ok(RequestKind::Attach),
            10 => Ok(RequestKind::Walk),
            12 => Ok(RequestKind::Open),
            14 => Ok(RequestKind::Create),
            16 => Ok(RequestKind::Read),
            18 => Ok(RequestKind::Write),
            20 => Ok(RequestKind::Clunk),
            22 => Ok(RequestKind::Remove),
            24 => Ok(RequestKind::Stat),
            26 => Ok(RequestKind::WStat),
            _ => Err(CodeValueError { code: num }),
        }
    }

    fn to_number(&self) -> (r: u8) {
        match self {
            RequestKind::Auth => 4,
            RequestKind::Flush => 6,
            RequestKind::Attach => 8,
            RequestKind::Walk => 10,
            RequestKind::Open => 12,
            RequestKind::Create => 14,
            RequestKind::Read => 16,
            RequestKind::Write => 18,
            RequestKind::Clunk => 20,
            RequestKind::Remove => 22,
            RequestKind::Stat => 24,
            RequestKind::WStat => 26,
        }
    }

    fn to_u64(&self) -> (r: u64) {
        match self {
            RequestKind::Auth => 4,
            RequestKind::Flush => 6,
            RequestKind::Attach => 8,
            RequestKind::Walk => 10,
            RequestKind::Open => 12,
            RequestKind::Create => 14,
            RequestKind::Read => 16,
            RequestKind::Write => 18,
            RequestKind::Clunk => 20,
            RequestKind::Remove => 22,
            RequestKind::Stat => 24,
            RequestKind::WStat => 26,
        }
    }

    fn max_number() -> (r: u64) {
        26
    }

    fn cast_number(n: u64) -> (r: Option<u8>) {
        if n <= u8::MAX as u64 {
            Some(n as u8)
        } else {
            None
        }
    }
}

/// The name of a request kind, as its variant is written.
pub open spec fn request_kind_name(k: RequestKind) -> Seq<char> {
    match k {
        RequestKind::Auth => "Auth"@,
        RequestKind::Flush => "Flush"@,
        RequestKind::Attach => "Attach"@,
        RequestKind::Walk => "Walk"@,
        RequestKind::Open => "Open"@,
        RequestKind::Create => "Create"@,
        RequestKind::Read => "Read"@,
        RequestKind::Write => "Write"@,
        RequestKind::Clunk => "Clunk"@,
        RequestKind::Remove => "Remove"@,
        RequestKind::Stat => "Stat"@,
        RequestKind::WStat => "WStat"@,
    }
}

impl RequestKind {
    /// The name of the kind, as its variant is written.
    pub fn name(&self) -> (r: &'static str)
        ensures
            r@ == request_kind_name(*self),
    {
        match self {
            RequestKind::Auth => "Auth",
            RequestKind::Flush => "Flush",
            RequestKind::Attach => "Attach",
            RequestKind::Walk => "Walk",
            RequestKind::Open => "Open",
            RequestKind::Create => "Create",
            RequestKind::Read => "Read",
            RequestKind::Write => "Write",
            RequestKind::Clunk => "Clunk",
            RequestKind::Remove => "Remove",
            RequestKind::Stat => "Stat",
            RequestKind::WStat => "WStat",
        }
    }
}

/// The kinds of version 1 responses.
#[derive(Debug, PartialEq, Eq, Clone, Copy, Structural)]
pub enum ResponseKind {
    /// Auth init succeeded.
    /// 
    /// Single argument: the server identifier of the auth file.
    Auth,
    /// Flush request succeeded.
    /// 
    /// No arguments.
    Flush,
    /// Attach request succeeded.
    /// 
    /// Single argument: the server identifier of the root directory.
    Attach,
    /// Walk request succeeded.
    /// 
    /// Single argument: the list of server identifiers of each path element.
    Walk,
    /// Open request succeeded.
    /// 
    /// Arguments: the server identifier of the opened file, and the maximum
    /// number of bytes that one message may carry (0 for no limit).
    Open,
    /// Create request succeeded.
    /// 
    /// Arguments: the server identifier of the created file, and the maximum
    /// number of bytes that one message may carry (0 for no limit).
    Create,
    /// Read request succeeded.
    /// 
    /// Arguments: the number of bytes read and the bytes.
    Read,
    /// Write request succeeded.
    /// 
    /// Single argument: the number of bytes written.
    Write,
    /// Clunk request succeeded.
    /// 
    /// No arguments.
    Clunk,
    /// Remove request succeeded.
    /// 
    /// No arguments.
    Remove,
    /// Stat request succeeded.
    /// 
    /// Single argument: the file attributes.
    Stat,
    /// Write stat request succeeded.
    /// 
    /// No arguments.
    WStat,
}

impl CodeConvert for ResponseKind {
    type int_type = u8;

    open spec fn spec_code(&self) -> u64 {
        match self {
            ResponseKind::Auth => 5,
            ResponseKind::Flush => 7,
            ResponseKind::Attach => 9,
            ResponseKind::Walk => 11,
            ResponseKind::Open => 13,
            ResponseKind::Create => 15,
            ResponseKind::Read => 17,
            ResponseKind::Write => 19,
            ResponseKind::Clunk => 21,
            ResponseKind::Remove => 23,
            ResponseKind::Stat => 25,
            ResponseKind::WStat => 27,
        }
    }

    open spec fn spec_from_code(n: u64) -> Option<ResponseKind> {
        if n == 5 {
            Some(ResponseKind::Auth)
        } else if n == 7 {
            Some(ResponseKind::Flush)
        } else if n == 9 {
            Some(ResponseKind::Attach)
        } else if n == 11 {
            Some(ResponseKind::Walk)
        } else if n == 13 {
            Some(ResponseKind::Open)
        } else if n == 15 {
            Some(ResponseKind::Create)
        } else if n == 17 {
            Some(ResponseKind::Read)
        } else if n == 19 {
            Some(ResponseKind::Write)
        } else if n == 21 {
            Some(ResponseKind::Clunk)
        } else if n == 23 {
            Some(ResponseKind::Remove)
        } else if n == 25 {
            Some(ResponseKind::Stat)
        } else if n == 27 {
            Some(ResponseKind::WStat)
        } else {
            None
        }
    }

    open spec fn spec_max_number() -> u64 {
        27
    }

    open spec fn spec_int_max() -> u64 {
        u8::MAX as u64
    }

    open spec fn spec_int_value(n: u8) -> u64 {
        n as u64
    }

    proof fn lemma_code_roundtrip(c: ResponseKind) {
    }

    proof fn lemma_from_code(n: u64) {
    }

    fn from_number(num: u8) -> (r: Result<ResponseKind, CodeValueError>) {
        assert(Self::spec_int_value(num) == num as u64);
        Self::from_u64(num as u64)
    }

    fn from_u64(num: u64) -> (r: Result<ResponseKind, CodeValueError>) {
        match num {
            5 => Ok(ResponseKind::Auth),
            7 => Ok(ResponseKind::Flush),
            9 => Ok(ResponseKind::Attach),
            11 => Ok(ResponseKind::Walk),
            13 => Ok(ResponseKind::Open),
            15 => Ok(ResponseKind::Create),
            17 => Ok(ResponseKind::Read),
            19 => Ok(ResponseKind::Write),
            21 => Ok(ResponseKind::Clunk),
            23 => Ok(ResponseKind::Remove),
            25 => Ok(ResponseKind::Stat),
            27 => Ok(ResponseKind::WStat),
            _ => Err(CodeValueError { code: num }),
        }
    }

    fn to_number(&self) -> (r: u8) {
        match self {
            ResponseKind::Auth => 5,
            ResponseKind::Flush => 7,
            ResponseKind::Attach => 9,
            ResponseKind::Walk => 11,
            ResponseKind::Open => 13,
            ResponseKind::Create => 15,
            ResponseKind::Read => 17,
            ResponseKind::Write => 19,
            ResponseKind::Clunk => 21,
            ResponseKind::Remove => 23,
            ResponseKind::Stat => 25,
            ResponseKind::WStat => 27,
        }
    }

    fn to_u64(&self) -> (r: u64) {
        match self {
            ResponseKind::Auth => 5,
            ResponseKind::Flush => 7,
            ResponseKind::Attach => 9,
            ResponseKind::Walk => 11,
            ResponseKind::Open => 13,
            ResponseKind::Create => 15,
            ResponseKind::Read => 17,
            ResponseKind::Write => 19,
            ResponseKind::Clunk => 21,
            ResponseKind::Remove => 23,
            ResponseKind::Stat => 25,
            ResponseKind::WStat => 27,
        }
    }

    fn max_number() -> (r: u64) {
        27
    }

    fn cast_number(n: u64) -> (r: Option<u8>) {
        if n <= u8::MAX as u64 {
            Some(n as u8)
        } else {
            None
        }
    }
}

/// The request codes of version 1.
pub type RequestCode = RequestKind;

/// The response codes of version 1.
pub type ResponseCode = ResponseKind;

/// A version 1 request message.
pub type Request = RequestMessage<RequestKind>;

/// A version 1 response message.
pub type Response = ResponseMessage<ResponseKind>;

/// The file attributes that a stat response carries.
pub type Stat = StatData;

// ===========================================================================
// Laws
// ===========================================================================

/// The wire code of each version 1 request kind is its fixed protocol
/// number, and each such number is read back as that kind.
pub proof fn lemma_request_wire_codes()
    ensures
        RequestKind::Auth.spec_code() == 4 && RequestKind::spec_from_code(4) == Some(RequestKind::Auth),
        RequestKind::Flush.spec_code() == 6 && RequestKind::spec_from_code(6) == Some(RequestKind::Flush),
        RequestKind::Attach.spec_code() == 8 && RequestKind::spec_from_code(8) == Some(RequestKind::Attach),
        RequestKind::Walk.spec_code() == 10 && RequestKind::spec_from_code(10) == Some(RequestKind::Walk),
        RequestKind::Open.spec_code() == 12 && RequestKind::spec_from_code(12) == Some(RequestKind::Open),
        RequestKind::Create.spec_code() == 14 && RequestKind::spec_from_code(14) == Some(RequestKind::Create),
        RequestKind::Read.spec_code() == 16 && RequestKind::spec_from_code(16) == Some(RequestKind::Read),
        RequestKind::Write.spec_code() == 18 && RequestKind::spec_from_code(18) == Some(RequestKind::Write),
        RequestKind::Clunk.spec_code() == 20 && RequestKind::spec_from_code(20) == Some(RequestKind::Clunk),
        RequestKind::Remove.spec_code() == 22 && RequestKind::spec_from_code(22) == Some(RequestKind::Remove),
        RequestKind::Stat.spec_code() == 24 && RequestKind::spec_from_code(24) == Some(RequestKind::Stat),
        RequestKind::WStat.spec_code() == 26 && RequestKind::spec_from_code(26) == Some(RequestKind::WStat),
{
}

/// The wire code of each version 1 response kind is its fixed protocol
/// number, and each such number is read back as that kind.
pub proof fn lemma_response_wire_codes()
    ensures
        ResponseKind::Auth.spec_code() == 5 && ResponseKind::spec_from_code(5) == Some(ResponseKind::Auth),
        ResponseKind::Flush.spec_code() == 7 && ResponseKind::spec_from_code(7) == Some(ResponseKind::Flush),
        ResponseKind::Attach.spec_code() == 9 && ResponseKind::spec_from_code(9) == Some(ResponseKind::Attach),
        ResponseKind::Walk.spec_code() == 11 && ResponseKind::spec_from_code(11) == Some(ResponseKind::Walk),
        ResponseKind::Open.spec_code() == 13 && ResponseKind::spec_from_code(13) == Some(ResponseKind::Open),
        ResponseKind::Create.spec_code() == 15 && ResponseKind::spec_from_code(15) == Some(ResponseKind::Create),
        ResponseKind::Read.spec_code() == 17 && ResponseKind::spec_from_code(17) == Some(ResponseKind::Read),
        ResponseKind::Write.spec_code() == 19 && ResponseKind::spec_from_code(19) == Some(ResponseKind::Write),
        ResponseKind::Clunk.spec_code() == 21 && ResponseKind::spec_from_code(21) == Some(ResponseKind::Clunk),
        ResponseKind::Remove.spec_code() == 23 && ResponseKind::spec_from_code(23) == Some(ResponseKind::Remove),
        ResponseKind::Stat.spec_code() == 25 && ResponseKind::spec_from_code(25) == Some(ResponseKind::Stat),
        ResponseKind::WStat.spec_code() == 27 && ResponseKind::spec_from_code(27) == Some(ResponseKind::WStat),
{
}

/// The response kind that answers each request kind.
pub open spec fn answering_kind(k: RequestKind) -> ResponseKind {
    match k {
        RequestKind::Auth => ResponseKind::Auth,
        RequestKind::Flush => ResponseKind::Flush,
        RequestKind::Attach => ResponseKind::Attach,
        RequestKind::Walk => ResponseKind::Walk,
        RequestKind::Open => ResponseKind::Open,
        RequestKind::Create => ResponseKind::Create,
        RequestKind::Read => ResponseKind::Read,
        RequestKind::Write => ResponseKind::Write,
        RequestKind::Clunk => ResponseKind::Clunk,
        RequestKind::Remove => ResponseKind::Remove,
        RequestKind::Stat => ResponseKind::Stat,
        RequestKind::WStat => ResponseKind::WStat,
    }
}

/// The code of a response kind is one more than the code of the request
/// kind it answers: requests take the even codes from 4 to 26, responses
/// the odd codes from 5 to 27, and no two kinds share a code.
pub proof fn lemma_response_code_follows_request(k: RequestKind, j: RequestKind)
    ensures
        answering_kind(k).spec_code() == k.spec_code() + 1,
        k.spec_code() % 2 == 0 && 4 <= k.spec_code() <= 26,
        k != j ==> k.spec_code() != j.spec_code(),
        k != j ==> answering_kind(k).spec_code() != answering_kind(j).spec_code(),
{
}

} // verus!
