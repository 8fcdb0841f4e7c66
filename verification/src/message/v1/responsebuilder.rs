//! Building version 1 response messages that answer a request, and reading
//! a file id back out of an auth response.

use vstd::prelude::*;

use crate::message::v1::requestbuilder::v1_request;
use crate::message::v1::util::filekind_is_valid;
use crate::message::v1::{
    request_kind_name, FileID, FileKind, Request, RequestKind, Response, ResponseKind, Stat,
};
use crate::rpccore::request::{is_request_value, lemma_request_roundtrip, RpcRequest};
use crate::rpccore::response::{
    is_response_value, lemma_response_roundtrip, response_value, ResponseMessage, RpcResponse,
};
use crate::rpccore::{message_items, CodeConvert, RpcMessage};
use crate::text::{push_decimal, push_str, spec_decimal, string_of};
use crate::value::{view_items, Value, ValueV};

verus! {

// ===========================================================================
// Errors
// ===========================================================================

/// The errors of building a response.
#[derive(Debug, PartialEq, Eq, Structural)]
pub enum BuildResponseError {
    /// The request answered is of another kind than the response.
    WrongCode { value: RequestKind, expected: RequestKind },
    /// The auth file id has an invalid kind (its bits).
    Auth(u8),
    /// The root directory id has an invalid kind (its bits).
    Attach(u8),
    /// The path element id at `index` has an invalid kind (its bits).
    Walk { index: usize, kind: u8 },
    /// The opened file id has an invalid kind (its bits).
    Open(u8),
    /// The created file id has an invalid kind (its bits).
    Create(u8),
    /// The read count differs from the number of bytes.
    Read(u32, usize),
}

/// The text of a [`BuildResponseError`].
pub open spec fn build_response_message(e: BuildResponseError) -> Seq<char> {
    match e {
        BuildResponseError::WrongCode { value, expected } =>
            "Unable to build response message: expected RequestCode::"@ + request_kind_name(
            expected,
        ) + ", got RequestCode::"@ + request_kind_name(value) + " instead"@,
        BuildResponseError::Auth(k) =>
            "Unable to build auth response message: file id has invalid kind "@ + spec_decimal(
            k as nat,
        ),
        BuildResponseError::Attach(k) =>
            "Unable to build attach response message: rootfile_id has invalid kind "@
            + spec_decimal(k as nat),
        BuildResponseError::Walk { index, kind } =>
            "Unable to build walk response message: item "@ + spec_decimal(index as nat)
            + " of path_id has invalid kind "@ + spec_decimal(kind as nat),
        BuildResponseError::Open(k) =>
            "Unable to build open response message: file id has invalid kind "@ + spec_decimal(
            k as nat,
        ),
        BuildResponseError::Create(k) =>
            "Unable to build create response message: file id has invalid kind "@ + spec_decimal(
            k as nat,
        ),
        BuildResponseError::Read(count, n) =>
            "Unable to build create response message: bytes read ("@ + spec_decimal(count as nat)
            + ") does not match read count ("@ + spec_decimal(n as nat) + ")"@,
    }
}

impl BuildResponseError {
    /// The error's text.
    pub fn to_string(&self) -> (r: String)
        ensures
            r@ == build_response_message(*self),
    {
        match self {
            BuildResponseError::WrongCode { value, expected } => {
                let mut s = string_of("Unable to build response message: expected RequestCode::");
                push_str(&mut s, expected.name());
                push_str(&mut s, ", got RequestCode::");
                push_str(&mut s, value.name());
                push_str(&mut s, " instead");
                s
            },
            BuildResponseError::Auth(k) => {
                let mut s = string_of(
                    "Unable to build auth response message: file id has invalid kind ",
                );
                push_decimal(&mut s, *k as u64);
                s
            },
            BuildResponseError::Attach(k) => {
                let mut s = string_of(
                    "Unable to build attach response message: rootfile_id has invalid kind ",
                );
                push_decimal(&mut s, *k as u64);
                s
            },
            BuildResponseError::Walk { index, kind } => {
                let mut s = string_of("Unable to build walk response message: item ");
                push_decimal(&mut s, *index as u64);
                push_str(&mut s, " of path_id has invalid kind ");
                push_decimal(&mut s, *kind as u64);
                s
            },
            BuildResponseError::Open(k) => {
                let mut s = string_of(
                    "Unable to build open response message: file id has invalid kind ",
                );
                push_decimal(&mut s, *k as u64);
                s
            },
            BuildResponseError::Create(k) => {
                let mut s = string_of(
                    "Unable to build create response message: file id has invalid kind ",
                );
                push_decimal(&mut s, *k as u64);
                s
            },
            BuildResponseError::Read(count, n) => {
                let mut s = string_of("Unable to build create response message: bytes read (");
                push_decimal(&mut s, *count as u64);
                push_str(&mut s, ") does not match read count (");
                push_decimal(&mut s, *n as u64);
                push_str(&mut s, ")");
                s
            },
        }
    }

    // The error of an invalid file id for an open or a create response.
    fn from_opencreate(tag: &OpenOrCreate, val: u8) -> (r: BuildResponseError)
        ensures
            r == (match tag {
                OpenOrCreate::Open => BuildResponseError::Open(val),
                OpenOrCreate::Create => BuildResponseError::Create(val),
            }),
    {
        match tag {
            OpenOrCreate::Open => BuildResponseError::Open(val),
            OpenOrCreate::Create => BuildResponseError::Create(val),
        }
    }
}

// ===========================================================================
// Specification of responses
// ===========================================================================

/// The value that stands for a file id in a response: its kind bits,
/// version and path.
pub open spec fn fileid_value(id: FileID) -> ValueV {
    ValueV::Array(
        seq![ValueV::uint(id.kind@ as u64), ValueV::uint(id.version as u64), ValueV::uint(id.path)],
    )
}

/// The id of the request whose message value is `v`.
pub open spec fn request_id(v: ValueV) -> u32 {
    message_items(v)[1].as_u64()->0 as u32
}

/// The kind of the request whose message value is `v`.
pub open spec fn request_kind(v: ValueV) -> RequestKind {
    RequestKind::spec_from_code(message_items(v)[2].as_u64()->0)->0
}

/// The message value of a version 1 response to the request `req`.
pub open spec fn v1_response(req: ValueV, kind: ResponseKind, result: ValueV) -> ValueV {
    response_value(request_id(req), kind.spec_code(), result)
}

/// The file id that the result of an auth response stands for, if any: an
/// array of a kind's bits, a u32 version and a u64 path.
pub open spec fn response_fileid(v: ValueV) -> Option<FileID> {
    let items = message_items(v);
    if items[2].as_u64() != Some(5u64) {
        None
    } else {
        match items[3] {
            ValueV::Array(a) => if a.len() != 3 {
                None
            } else {
                match (a[0].as_u64(), a[1].as_u64(), a[2].as_u64()) {
                    (Some(k), Some(version), Some(path)) => if k <= u8::MAX as u64 && (k as u8) & 7
                        == 0 && version <= u32::MAX as u64 {
                        Some(
                            FileID {
                                kind: FileKind::spec_from_bits(k as u8),
                                version: version as u32,
                                path,
                            },
                        )
                    } else {
                        None
                    },
                    _ => None,
                }
            },
            _ => None,
        }
    }
}

// ===========================================================================
// Reading a file id
// ===========================================================================

/// Reading what a response carries.
pub trait ProtocolResponse: RpcMessage {
    /// The file id of an auth response.
    fn as_fileid(&self) -> (r: Option<FileID>)
        ensures
            r == response_fileid(self.message_value()),
    ;
}

impl ProtocolResponse for Response {
    fn as_fileid(&self) -> (r: Option<FileID>) {
        // The response must have a code of ResponseKind::Auth
        match self.error_code() {
            ResponseKind::Auth => {},
            _ => {
                return None;
            },
        }
        let result = match self.result().as_array() {
            Some(val) => val,
            None => {
                return None;
            },
        };
        if result.len() != 3 {
            return None;
        }
        proof {
            assert(result@[0]@ == message_items(self@)[3].as_array()->0[0]);
            assert(result@[1]@ == message_items(self@)[3].as_array()->0[1]);
            assert(result@[2]@ == message_items(self@)[3].as_array()->0[2]);
        }
        // Convert bits into FileKind
        let kind = match result[0].as_u64() {
            Some(v) => {
                if v <= u8::MAX as u64 {
                    match FileKind::from_bits(v as u8) {
                        Some(kind) => kind,
                        None => {
                            return None;
                        },
                    }
                } else {
                    return None;
                }
            },
            None => {
                return None;
            },
        };
        // Ensure version is a u32
        let version = match result[1].as_u64() {
            Some(v) => {
                if v <= u32::MAX as u64 {
                    v as u32
                } else {
                    return None;
                }
            },
            None => {
                return None;
            },
        };
        // Ensure path is a u64
        let path = match result[2].as_u64() {
            Some(v) => v,
            None => {
                return None;
            },
        };
        proof {
            let k = result@[0]@.as_u64()->0 as u8;
            FileKind::lemma_spec_from_bits(k);
            FileKind::lemma_view(kind, FileKind::spec_from_bits(k));
        }
        Some(FileID::new(kind, version, path))
    }
}

// ===========================================================================
// Response builder
// ===========================================================================

enum OpenOrCreate {
    Open,
    Create,
}

impl OpenOrCreate {
    fn req_resp_code(&self) -> (r: (RequestKind, ResponseKind))
        ensures
            r == (match self {
                OpenOrCreate::Open => (RequestKind::Open, ResponseKind::Open),
                OpenOrCreate::Create => (RequestKind::Create, ResponseKind::Create),
            }),
    {
        match *self {
            OpenOrCreate::Open => (RequestKind::Open, ResponseKind::Open),
            OpenOrCreate::Create => (RequestKind::Create, ResponseKind::Create),
        }
    }
}

/// The error of building a response of the kind that answers `expected`
/// to the request `req`, when the request is of another kind.
pub open spec fn wrong_code(req: ValueV, expected: RequestKind) -> BuildResponseError {
    BuildResponseError::WrongCode { value: request_kind(req), expected }
}

/// Builds the responses to one version 1 request.
pub struct ResponseBuilder<'request> {
    request: &'request Request,
}

impl<'request> ResponseBuilder<'request> {
    /// The message value of the request answered.
    pub closed spec fn request_value(&self) -> ValueV {
        self.request@
    }

    /// A builder of the responses to `request`.
    pub fn new(request: &'request Request) -> (r: ResponseBuilder<'request>)
        ensures
            r.request_value() == request@,
    {
        ResponseBuilder { request: request }
    }

    // Checks that the request answered is of the kind `expected`.
    fn check_request_method(&self, expected: RequestKind) -> (r: Result<(), BuildResponseError>)
        ensures
            is_request_value::<RequestKind>(self.request_value()),
            match r {
                Ok(_) => request_kind(self.request_value()) == expected,
                Err(e) => request_kind(self.request_value()) != expected && e == wrong_code(
                    self.request_value(),
                    expected,
                ),
            },
    {
        let code = self.request.message_method();
        if code != expected {
            Err(BuildResponseError::WrongCode { value: code, expected: expected })
        } else {
            Ok(())
        }
    }

    // The id of the request answered.
    fn request_id(&self) -> (r: u32)
        ensures
            r == request_id(self.request_value()),
    {
        self.request.message_id()
    }

    // The value that stands for a file id.
    fn fileid_value(id: FileID) -> (r: Value)
        ensures
            r@ == fileid_value(id),
    {
        let mut items: Vec<Value> = Vec::new();
        items.push(Value::from_u64(id.kind.bits() as u64));
        items.push(Value::from_u64(id.version as u64));
        items.push(Value::from_u64(id.path));
        proof {
            assert(view_items(items@) =~= fileid_value(id).as_array()->0);
        }
        Value::from_array(items)
    }

    /// Auth init succeeded.
    ///
    /// Single argument: the server identifier of the auth file.
    ///
    /// # Errors
    ///
    /// `WrongCode` when the request is not an auth request, else `Auth`
    /// when the file id's kind is invalid.
    pub fn auth(self, id: FileID) -> (r: Result<Response, BuildResponseError>)
        ensures
            match r {
                Ok(resp) => {
                    &&& request_kind(self.request_value()) == RequestKind::Auth
                    &&& filekind_is_valid(id.kind@)
                    &&& resp@ == v1_response(self.request_value(), ResponseKind::Auth, fileid_value(id))
                },
                Err(e) => if request_kind(self.request_value()) != RequestKind::Auth {
                    e == wrong_code(self.request_value(), RequestKind::Auth)
                } else {
                    !filekind_is_valid(id.kind@) && e == BuildResponseError::Auth(id.kind@)
                },
            },
    {
        self.check_request_method(RequestKind::Auth)?;
        if !id.is_valid() {
            return Err(BuildResponseError::Auth(id.kind.bits()));
        }
        let fileid = Self::fileid_value(id);
        let msgid = self.request_id();
        Ok(ResponseMessage::new(msgid, ResponseKind::Auth, fileid))
    }

    /// Flush request succeeded.
    ///
    /// No arguments: the result is nil.
    ///
    /// # Errors
    ///
    /// `WrongCode` when the request is not a flush request.
    pub fn flush(self) -> (r: Result<Response, BuildResponseError>)
        ensures
            match r {
                Ok(resp) => request_kind(self.request_value()) == RequestKind::Flush && resp@
                    == v1_response(self.request_value(), ResponseKind::Flush, ValueV::Nil),
                Err(e) => request_kind(self.request_value()) != RequestKind::Flush && e
                    == wrong_code(self.request_value(), RequestKind::Flush),
            },
    {
        self.check_request_method(RequestKind::Flush)?;
        let msgid = self.request_id();
        Ok(ResponseMessage::new(msgid, ResponseKind::Flush, Value::Nil))
    }

    /// Attach request succeeded.
    ///
    /// Single argument: the server identifier of the root directory.
    ///
    /// # Errors
    ///
    /// `WrongCode` when the request is not an attach request, else `Attach`
    /// when the file id's kind is invalid.
    pub fn attach(self, rootdir_id: FileID) -> (r: Result<Response, BuildResponseError>)
        ensures
            match r {
                Ok(resp) => {
                    &&& request_kind(self.request_value()) == RequestKind::Attach
                    &&& filekind_is_valid(rootdir_id.kind@)
                    &&& resp@ == v1_response(
                        self.request_value(),
                        ResponseKind::Attach,
                        fileid_value(rootdir_id),
                    )
                },
                Err(e) => if request_kind(self.request_value()) != RequestKind::Attach {
                    e == wrong_code(self.request_value(), RequestKind::Attach)
                } else {
                    !filekind_is_valid(rootdir_id.kind@) && e == BuildResponseError::Attach(
                        rootdir_id.kind@,
                    )
                },
            },
    {
        self.check_request_method(RequestKind::Attach)?;
        if !rootdir_id.is_valid() {
            return Err(BuildResponseError::Attach(rootdir_id.kind.bits()));
        }
        let fileid = Self::fileid_value(rootdir_id);
        let msgid = self.request_id();
        Ok(ResponseMessage::new(msgid, ResponseKind::Attach, fileid))
    }

    /// Walk request succeeded.
    ///
    /// Single argument: the list of server identifiers of each path element.
    ///
    /// # Errors
    ///
    /// `WrongCode` when the request is not a walk request, else `Walk` for
    /// the first path element id whose kind is invalid.
    pub fn walk(self, path_id: &Vec<FileID>) -> (r: Result<Response, BuildResponseError>)
        ensures
            match r {
                Ok(resp) => {
                    &&& request_kind(self.request_value()) == RequestKind::Walk
                    &&& forall|i: int|
                        0 <= i < path_id@.len() ==> filekind_is_valid(#[trigger] path_id@[i].kind@)
                    &&& resp@ == v1_response(
                        self.request_value(),
                        ResponseKind::Walk,
                        ValueV::Array(Seq::new(path_id@.len(), |i: int| fileid_value(path_id@[i]))),
                    )
                },
                Err(e) => if request_kind(self.request_value()) != RequestKind::Walk {
                    e == wrong_code(self.request_value(), RequestKind::Walk)
                } else {
                    exists|n: int|
                        {
                            &&& 0 <= n < path_id@.len()
                            &&& !filekind_is_valid(#[trigger] path_id@[n].kind@)
                            &&& forall|j: int|
                                0 <= j < n ==> filekind_is_valid(#[trigger] path_id@[j].kind@)
                            &&& e == BuildResponseError::Walk {
                                index: n as usize,
                                kind: path_id@[n].kind@,
                            }
                        }
                },
            },
    {
        self.check_request_method(RequestKind::Walk)?;
        let mut result: Vec<Value> = Vec::new();
        let mut n: usize = 0;
        while n < path_id.len()
            invariant
                request_kind(self.request_value()) == RequestKind::Walk,
                n <= path_id@.len(),
                result@.len() == n,
                forall|j: int| 0 <= j < n ==> filekind_is_valid(#[trigger] path_id@[j].kind@),
                forall|j: int| 0 <= j < n ==> (#[trigger] result@[j])@ == fileid_value(path_id@[j]),
            decreases path_id@.len() - n,
        {
            let fid = path_id[n];
            if !fid.is_valid() {
                let e = BuildResponseError::Walk { index: n, kind: fid.kind.bits() };
                assert(!filekind_is_valid(path_id@[n as int].kind@));
                return Err(e);
            }
            result.push(Self::fileid_value(fid));
            n += 1;
        }
        let ghost items = view_items(result@);
        proof {
            assert(items =~= Seq::new(path_id@.len(), |i: int| fileid_value(path_id@[i])));
        }
        let msgid = self.request_id();
        Ok(ResponseMessage::new(msgid, ResponseKind::Walk, Value::from_array(result)))
    }

    // Open or create request succeeded.
    //
    // Arguments: the server identifier of the file, and the maximum number
    // of bytes that one message may carry (0 for no limit).
    fn open_or_create(self, tag: OpenOrCreate, file_id: FileID, max_size: u32) -> (r: Result<
        Response,
        BuildResponseError,
    >)
        ensures
            ({
                let (req_kind, resp_kind) = match tag {
                    OpenOrCreate::Open => (RequestKind::Open, ResponseKind::Open),
                    OpenOrCreate::Create => (RequestKind::Create, ResponseKind::Create),
                };
                match r {
                    Ok(resp) => {
                        &&& request_kind(self.request_value()) == req_kind
                        &&& filekind_is_valid(file_id.kind@)
                        &&& resp@ == v1_response(
                            self.request_value(),
                            resp_kind,
                            ValueV::Array(seq![fileid_value(file_id), ValueV::uint(max_size as u64)]),
                        )
                    },
                    Err(e) => if request_kind(self.request_value()) != req_kind {
                        e == wrong_code(self.request_value(), req_kind)
                    } else {
                        !filekind_is_valid(file_id.kind@) && e == (match tag {
                            OpenOrCreate::Open => BuildResponseError::Open(file_id.kind@),
                            OpenOrCreate::Create => BuildResponseError::Create(file_id.kind@),
                        })
                    },
                }
            }),
    {
        let (req_tag, resp_tag) = tag.req_resp_code();
        self.check_request_method(req_tag)?;
        if !file_id.is_valid() {
            let val = file_id.kind.bits();
            let err = BuildResponseError::from_opencreate(&tag, val);
            return Err(err);
        }
        let mut result: Vec<Value> = Vec::new();
        result.push(Self::fileid_value(file_id));
        result.push(Value::from_u64(max_size as u64));
        proof {
            assert(view_items(result@) =~= seq![fileid_value(file_id), ValueV::uint(max_size as u64)]);
        }
        let msgid = self.request_id();
        Ok(ResponseMessage::new(msgid, resp_tag, Value::from_array(result)))
    }

    /// Open request succeeded.
    ///
    /// Arguments: the server identifier of the opened file, and the maximum
    /// number of bytes that one message may carry (0 for no limit).
    ///
    /// # Errors
    ///
    /// `WrongCode` when the request is not an open request, else `Open` when
    /// the file id's kind is invalid.
    pub fn open(self, file_id: FileID, max_size: u32) -> (r: Result<Response, BuildResponseError>)
        ensures
            match r {
                Ok(resp) => {
                    &&& request_kind(self.request_value()) == RequestKind::Open
                    &&& filekind_is_valid(file_id.kind@)
                    &&& resp@ == v1_response(
                        self.request_value(),
                        ResponseKind::Open,
                        ValueV::Array(seq![fileid_value(file_id), ValueV::uint(max_size as u64)]),
                    )
                },
                Err(e) => if request_kind(self.request_value()) != RequestKind::Open {
                    e == wrong_code(self.request_value(), RequestKind::Open)
                } else {
                    !filekind_is_valid(file_id.kind@) && e == BuildResponseError::Open(
                        file_id.kind@,
                    )
                },
            },
    {
        self.open_or_create(OpenOrCreate::Open, file_id, max_size)
    }

    /// Create request succeeded.
    ///
    /// Arguments: the server identifier of the created file, and the maximum
    /// number of bytes that one message may carry (0 for no limit).
    ///
    /// # Errors
    ///
    /// `WrongCode` when the request is not a create request, else `Create`
    /// when the file id's kind is invalid.
    pub fn create(self, file_id: FileID, max_size: u32) -> (r: Result<
        Response,
        BuildResponseError,
    >)
        ensures
            match r {
                Ok(resp) => {
                    &&& request_kind(self.request_value()) == RequestKind::Create
                    &&& filekind_is_valid(file_id.kind@)
                    &&& resp@ == v1_response(
                        self.request_value(),
                        ResponseKind::Create,
                        ValueV::Array(seq![fileid_value(file_id), ValueV::uint(max_size as u64)]),
                    )
                },
                Err(e) => if request_kind(self.request_value()) != RequestKind::Create {
                    e == wrong_code(self.request_value(), RequestKind::Create)
                } else {
                    !filekind_is_valid(file_id.kind@) && e == BuildResponseError::Create(
                        file_id.kind@,
                    )
                },
            },
    {
        self.open_or_create(OpenOrCreate::Create, file_id, max_size)
    }

    /// Read request succeeded.
    ///
    /// Arguments: the number of bytes read and the bytes.
    ///
    /// # Errors
    ///
    /// `WrongCode` when the request is not a read request, else `Read` when
    /// `count` differs from the number of bytes.
    pub fn read(self, count: u32, data: &[u8]) -> (r: Result<Response, BuildResponseError>)
        ensures
            match r {
                Ok(resp) => {
                    &&& request_kind(self.request_value()) == RequestKind::Read
                    &&& count as int == data@.len()
                    &&& resp@ == v1_response(
                        self.request_value(),
                        ResponseKind::Read,
                        ValueV::Array(seq![ValueV::uint(count as u64), ValueV::Binary(data@)]),
                    )
                },
                Err(e) => if request_kind(self.request_value()) != RequestKind::Read {
                    e == wrong_code(self.request_value(), RequestKind::Read)
                } else {
                    count as int != data@.len() && e == BuildResponseError::Read(
                        count,
                        data@.len() as usize,
                    )
                },
            },
    {
        self.check_request_method(RequestKind::Read)?;
        let numbytes = data.len();
        if count as u64 != numbytes as u64 {
            return Err(BuildResponseError::Read(count, numbytes));
        }
        let mut bytes: Vec<u8> = Vec::new();
        let mut i: usize = 0;
        while i < numbytes
            invariant
                numbytes == data@.len(),
                i <= numbytes,
                bytes@ == data@.subrange(0, i as int),
            decreases numbytes - i,
        {
            bytes.push(data[i]);
            i += 1;
            assert(bytes@ =~= data@.subrange(0, i as int));
        }
        assert(bytes@ =~= data@);
        let mut msgargs: Vec<Value> = Vec::new();
        msgargs.push(Value::from_u64(count as u64));
        msgargs.push(Value::from_binary(bytes));
        proof {
            assert(view_items(msgargs@) =~= seq![ValueV::uint(count as u64), ValueV::Binary(data@)]);
        }
        let msgid = self.request_id();
        Ok(ResponseMessage::new(msgid, ResponseKind::Read, Value::from_array(msgargs)))
    }

    /// Write request succeeded.
    ///
    /// Single argument: the number of bytes written.
    ///
    /// # Errors
    ///
    /// `WrongCode` when the request is not a write request.
    pub fn write(self, count: u32) -> (r: Result<Response, BuildResponseError>)
        ensures
            match r {
                Ok(resp) => request_kind(self.request_value()) == RequestKind::Write && resp@
                    == v1_response(
                    self.request_value(),
                    ResponseKind::Write,
                    ValueV::uint(count as u64),
                ),
                Err(e) => request_kind(self.request_value()) != RequestKind::Write && e
                    == wrong_code(self.request_value(), RequestKind::Write),
            },
    {
        self.check_request_method(RequestKind::Write)?;
        let msgid = self.request_id();
        Ok(ResponseMessage::new(msgid, ResponseKind::Write, Value::from_u64(count as u64)))
    }

    /// Clunk request succeeded.
    ///
    /// No arguments: the result is nil.
    ///
    /// # Errors
    ///
    /// `WrongCode` when the request is not a clunk request.
    pub fn clunk(self) -> (r: Result<Response, BuildResponseError>)
        ensures
            match r {
                Ok(resp) => request_kind(self.request_value()) == RequestKind::Clunk && resp@
                    == v1_response(self.request_value(), ResponseKind::Clunk, ValueV::Nil),
                Err(e) => request_kind(self.request_value()) != RequestKind::Clunk && e
                    == wrong_code(self.request_value(), RequestKind::Clunk),
            },
    {
        self.check_request_method(RequestKind::Clunk)?;
        let msgid = self.request_id();
        Ok(ResponseMessage::new(msgid, ResponseKind::Clunk, Value::Nil))
    }

    /// Remove request succeeded.
    ///
    /// No arguments: the result is nil.
    ///
    /// # Errors
    ///
    /// `WrongCode` when the request is not a remove request.
    pub fn remove(self) -> (r: Result<Response, BuildResponseError>)
        ensures
            match r {
                Ok(resp) => request_kind(self.request_value()) == RequestKind::Remove && resp@
                    == v1_response(self.request_value(), ResponseKind::Remove, ValueV::Nil),
                Err(e) => request_kind(self.request_value()) != RequestKind::Remove && e
                    == wrong_code(self.request_value(), RequestKind::Remove),
            },
    {
        self.check_request_method(RequestKind::Remove)?;
        let msgid = self.request_id();
        Ok(ResponseMessage::new(msgid, ResponseKind::Remove, Value::Nil))
    }

    /// Stat request succeeded.
    ///
    /// Single argument: the list of the stat's fields, in order.
    ///
    /// # Errors
    ///
    /// `WrongCode` when the request is not a stat request.
    pub fn stat(self, stat: &Stat) -> (r: Result<Response, BuildResponseError>)
        ensures
            match r {
                Ok(resp) => request_kind(self.request_value()) == RequestKind::Stat && resp@
                    == v1_response(
                    self.request_value(),
                    ResponseKind::Stat,
                    ValueV::Array(
                        seq![
                            ValueV::uint(stat.size as u64),
                            fileid_value(stat.fileid),
                            ValueV::uint(stat.mode as u64),
                            ValueV::uint(stat.atime as u64),
                            ValueV::uint(stat.mtime as u64),
                            ValueV::uint(stat.length),
                            ValueV::str(stat.name@),
                            ValueV::str(stat.uid@),
                            ValueV::str(stat.gid@),
                            ValueV::str(stat.muid@),
                        ],
                    ),
                ),
                Err(e) => request_kind(self.request_value()) != RequestKind::Stat && e
                    == wrong_code(self.request_value(), RequestKind::Stat),
            },
    {
        self.check_request_method(RequestKind::Stat)?;
        let msgid = self.request_id();
        let mut result: Vec<Value> = Vec::new();
        result.push(Value::from_u64(stat.size as u64));
        result.push(Self::fileid_value(stat.fileid));
        result.push(Value::from_u64(stat.mode as u64));
        result.push(Value::from_u64(stat.atime as u64));
        result.push(Value::from_u64(stat.mtime as u64));
        result.push(Value::from_u64(stat.length));
        result.push(Value::from_str(stat.name.as_str()));
        result.push(Value::from_str(stat.uid.as_str()));
        result.push(Value::from_str(stat.gid.as_str()));
        result.push(Value::from_str(stat.muid.as_str()));
        proof {
            assert(view_items(result@) =~= seq![
                ValueV::uint(stat.size as u64),
                fileid_value(stat.fileid),
                ValueV::uint(stat.mode as u64),
                ValueV::uint(stat.atime as u64),
                ValueV::uint(stat.mtime as u64),
                ValueV::uint(stat.length),
                ValueV::str(stat.name@),
                ValueV::str(stat.uid@),
                ValueV::str(stat.gid@),
                ValueV::str(stat.muid@),
            ]);
        }
        Ok(ResponseMessage::new(msgid, ResponseKind::Stat, Value::from_array(result)))
    }
}

/// A response builder for the request `request`.
pub fn response<'request>(request: &'request Request) -> (r: ResponseBuilder<'request>)
    ensures
        r.request_value() == request@,
{
    ResponseBuilder::new(request)
}

// ===========================================================================
// Laws
// ===========================================================================

/// A response built for a version 1 request answers that request: it is a
/// valid response, it carries the request's message id, and its code is the
/// response kind it was built with.
pub proof fn lemma_response_answers_request(
    msgid: u32,
    kind: RequestKind,
    args: Seq<ValueV>,
    resp_kind: ResponseKind,
    result: ValueV,
)
    ensures
        ({
            let req = v1_request(msgid, kind, args);
            let resp = v1_response(req, resp_kind, result);
            &&& request_id(req) == msgid
            &&& request_kind(req) == kind
            &&& is_response_value::<ResponseKind>(resp)
            &&& message_items(resp)[1].as_u64() == Some(msgid as u64)
            &&& ResponseKind::spec_from_code(message_items(resp)[2].as_u64()->0) == Some(resp_kind)
            &&& message_items(resp)[3] == result
        }),
{
    lemma_request_roundtrip::<RequestKind>(msgid, kind, args);
    lemma_response_roundtrip::<ResponseKind>(msgid, resp_kind, result);
}

/// The file id that an auth response is built with is the one read back
/// from it.
pub proof fn lemma_auth_fileid_roundtrip(req: ValueV, id: FileID)
    requires
        id.kind@ & 7 == 0,
    ensures
        response_fileid(v1_response(req, ResponseKind::Auth, fileid_value(id))) == Some(id),
{
    FileKind::lemma_spec_from_bits(id.kind@);
    FileKind::lemma_view(FileKind::spec_from_bits(id.kind@), id.kind);
}

} // verus!
