//! Building version 1 request messages, with checks on their arguments.

use vstd::prelude::*;

use crate::message::v1::{OpenMode, Request, RequestKind};
use crate::rpccore::request::{request_value, RequestMessage};
use crate::rpccore::CodeConvert;
use crate::text::{push_decimal, push_str, spec_decimal, string_of};
use crate::util::{is_printable, printable};
use crate::value::{view_items, Value, ValueV};

verus! {

// ===========================================================================
// Names
// ===========================================================================

/// A name that is empty or holds characters that names may not hold; the
/// variant tells whether whitespace was allowed, the string names the
/// argument.
#[derive(Debug)]
pub enum CheckNameError {
    WSPrintable(String),
    WSNotPrintable(String),
}

/// The mathematical form of a [`CheckNameError`].
pub enum CheckNameErrorV {
    WSPrintable(Seq<char>),
    WSNotPrintable(Seq<char>),
}

impl View for CheckNameError {
    type V = CheckNameErrorV;

    open spec fn view(&self) -> CheckNameErrorV {
        match self {
            CheckNameError::WSPrintable(s) => CheckNameErrorV::WSPrintable(s@),
            CheckNameError::WSNotPrintable(s) => CheckNameErrorV::WSNotPrintable(s@),
        }
    }
}

/// The text of a [`CheckNameError`].
pub open spec fn check_name_message(e: CheckNameErrorV) -> Seq<char> {
    match e {
        CheckNameErrorV::WSPrintable(var) => var
            + " is either empty, or contains control characters"@,
        CheckNameErrorV::WSNotPrintable(var) => var
            + " is either empty, contains whitespace, or contains control characters"@,
    }
}

impl CheckNameError {
    /// The error's text.
    pub fn to_string(&self) -> (r: String)
        ensures
            r@ == check_name_message(self@),
    {
        match self {
            CheckNameError::WSPrintable(var) => {
                let mut s = string_of(var.as_str());
                push_str(&mut s, " is either empty, or contains control characters");
                s
            },
            CheckNameError::WSNotPrintable(var) => {
                let mut s = string_of(var.as_str());
                push_str(
                    &mut s,
                    " is either empty, contains whitespace, or contains control characters",
                );
                s
            },
        }
    }
}

/// The error of checking the name `name` of the argument `var`, if any.
pub open spec fn name_error(var: Seq<char>, name: Seq<char>, ws_printable: bool) -> Option<
    CheckNameErrorV,
> {
    if printable(name, ws_printable) {
        None
    } else if ws_printable {
        Some(CheckNameErrorV::WSPrintable(var))
    } else {
        Some(CheckNameErrorV::WSNotPrintable(var))
    }
}

// Checks that a name is not empty and holds only printable characters.
fn check_name(var: &str, name: &str, ws_printable: bool) -> (r: Result<(), CheckNameError>)
    ensures
        match r {
            Ok(_) => name_error(var@, name@, ws_printable) is None,
            Err(e) => name_error(var@, name@, ws_printable) == Some(e@),
        },
{
    if !is_printable(name, ws_printable) {
        let err = if ws_printable {
            CheckNameError::WSPrintable(string_of(var))
        } else {
            CheckNameError::WSNotPrintable(string_of(var))
        };
        return Err(err);
    }
    Ok(())
}

// ===========================================================================
// Request builder errors
// ===========================================================================

/// The errors of building an attach request.
#[derive(Debug)]
pub enum BuildAttachError {
    NameError(CheckNameError),
    /// The root directory id equals the auth file id.
    MatchingID(u32),
}

/// The mathematical form of a [`BuildAttachError`].
pub enum BuildAttachErrorV {
    NameError(CheckNameErrorV),
    MatchingID(u32),
}

impl View for BuildAttachError {
    type V = BuildAttachErrorV;

    open spec fn view(&self) -> BuildAttachErrorV {
        match self {
            BuildAttachError::NameError(e) => BuildAttachErrorV::NameError(e@),
            BuildAttachError::MatchingID(n) => BuildAttachErrorV::MatchingID(*n),
        }
    }
}

/// The text of a [`BuildAttachError`].
pub open spec fn build_attach_message(e: BuildAttachErrorV) -> Seq<char> {
    match e {
        BuildAttachErrorV::NameError(n) => "Name error: "@ + check_name_message(n),
        BuildAttachErrorV::MatchingID(id) => "Invalid rootdir_id value ("@ + spec_decimal(
            id as nat,
        ) + "): rootdir_id matches authfile_id"@,
    }
}

impl BuildAttachError {
    /// The error's text.
    pub fn to_string(&self) -> (r: String)
        ensures
            r@ == build_attach_message(self@),
    {
        match self {
            BuildAttachError::NameError(e) => {
                let mut s = string_of("Name error: ");
                let t = e.to_string();
                push_str(&mut s, t.as_str());
                s
            },
            BuildAttachError::MatchingID(id) => {
                let mut s = string_of("Invalid rootdir_id value (");
                push_decimal(&mut s, *id as u64);
                push_str(&mut s, "): rootdir_id matches authfile_id");
                s
            },
        }
    }
}

/// The errors of building a request.
#[derive(Debug)]
pub enum BuildRequestError {
    Auth(CheckNameError),
    /// The previous message id equals the flush request's own id.
    Flush(u32),
    Attach(BuildAttachError),
    /// The new file id equals the file id.
    Walk(u32),
    Create(CheckNameError),
}

/// The mathematical form of a [`BuildRequestError`].
pub enum BuildRequestErrorV {
    Auth(CheckNameErrorV),
    Flush(u32),
    Attach(BuildAttachErrorV),
    Walk(u32),
    Create(CheckNameErrorV),
}

impl View for BuildRequestError {
    type V = BuildRequestErrorV;

    open spec fn view(&self) -> BuildRequestErrorV {
        match self {
            BuildRequestError::Auth(e) => BuildRequestErrorV::Auth(e@),
            BuildRequestError::Flush(n) => BuildRequestErrorV::Flush(*n),
            BuildRequestError::Attach(e) => BuildRequestErrorV::Attach(e@),
            BuildRequestError::Walk(n) => BuildRequestErrorV::Walk(*n),
            BuildRequestError::Create(e) => BuildRequestErrorV::Create(e@),
        }
    }
}

/// The text of a [`BuildRequestError`].
pub open spec fn build_request_message(e: BuildRequestErrorV) -> Seq<char> {
    match e {
        BuildRequestErrorV::Auth(_) => "Unable to build auth request message"@,
        BuildRequestErrorV::Flush(id) => "Unable to build flush request message: prev msg id ("@
            + spec_decimal(id as nat) + ") matches current msg id"@,
        BuildRequestErrorV::Attach(_) => "Unable to build attach request message"@,
        BuildRequestErrorV::Walk(id) => "Unable to build walk request message: newfile_id ("@
            + spec_decimal(id as nat) + ") has the same value as file_id"@,
        BuildRequestErrorV::Create(_) => "Unable to build create request message"@,
    }
}

impl BuildRequestError {
    /// The error's text.
    pub fn to_string(&self) -> (r: String)
        ensures
            r@ == build_request_message(self@),
    {
        match self {
            BuildRequestError::Auth(_) => string_of("Unable to build auth request message"),
            BuildRequestError::Flush(id) => {
                let mut s = string_of("Unable to build flush request message: prev msg id (");
                push_decimal(&mut s, *id as u64);
                push_str(&mut s, ") matches current msg id");
                s
            },
            BuildRequestError::Attach(_) => string_of("Unable to build attach request message"),
            BuildRequestError::Walk(id) => {
                let mut s = string_of("Unable to build walk request message: newfile_id (");
                push_decimal(&mut s, *id as u64);
                push_str(&mut s, ") has the same value as file_id");
                s
            },
            BuildRequestError::Create(_) => string_of("Unable to build create request message"),
        }
    }
}

// ===========================================================================
// Request builder
// ===========================================================================

/// The message value of a version 1 request of the given kind.
pub open spec fn v1_request(id: u32, kind: RequestKind, args: Seq<ValueV>) -> ValueV {
    request_value::<RequestKind>(id, kind.spec_code(), args)
}

/// The string values of a list of names.
pub open spec fn str_values(names: Seq<&str>) -> Seq<ValueV> {
    Seq::new(names.len(), |i: int| ValueV::str(names[i]@))
}

/// Builds the version 1 requests that carry one message id.
pub struct RequestBuilder {
    id: u32,
}

impl View for RequestBuilder {
    type V = u32;

    /// The message id of the requests built.
    closed spec fn view(&self) -> u32 {
        self.id
    }
}

impl RequestBuilder {
    /// A builder of requests that carry the message id `msgid`.
    pub fn new(msgid: u32) -> (r: RequestBuilder)
        ensures
            r@ == msgid,
    {
        RequestBuilder { id: msgid }
    }

    /// Setup client authentication file.
    ///
    /// Arguments: file id of the auth file, user name, service name.
    ///
    /// # Errors
    ///
    /// `Auth` when the user name, or else the service name, is empty or
    /// holds whitespace or control characters.
    pub fn auth(self, authfile_id: u32, username: &str, fsname: &str) -> (r: Result<
        Request,
        BuildRequestError,
    >)
        ensures
            match r {
                Ok(req) => {
                    &&& printable(username@, false)
                    &&& printable(fsname@, false)
                    &&& req@ == v1_request(
                        self@,
                        RequestKind::Auth,
                        seq![ValueV::uint(authfile_id as u64), ValueV::str(username@), ValueV::str(fsname@)],
                    )
                },
                Err(e) => if !printable(username@, false) {
                    e@ == BuildRequestErrorV::Auth(CheckNameErrorV::WSNotPrintable("username"@))
                } else {
                    !printable(fsname@, false) && e@ == BuildRequestErrorV::Auth(
                        CheckNameErrorV::WSNotPrintable("filesystem name"@),
                    )
                },
            },
    {
        if let Err(e) = check_name("username", username, false) {
            return Err(BuildRequestError::Auth(e));
        }
        if let Err(e) = check_name("filesystem name", fsname, false) {
            return Err(BuildRequestError::Auth(e));
        }
        let mut msgargs: Vec<Value> = Vec::new();
        msgargs.push(Value::from_u64(authfile_id as u64));
        msgargs.push(Value::from_str(username));
        msgargs.push(Value::from_str(fsname));
        proof {
            assert(view_items(msgargs@) =~= seq![ValueV::uint(authfile_id as u64), ValueV::str(username@), ValueV::str(fsname@)]);
        }
        Ok(RequestMessage::new(self.id, RequestKind::Auth, msgargs))
    }

    /// Request to abort a previous request if it has not been processed
    /// yet.
    ///
    /// Single argument: the message id of the previous request.
    ///
    /// # Errors
    ///
    /// `Flush` when the previous message id is this request's own id.
    pub fn flush(self, prev_msgid: u32) -> (r: Result<Request, BuildRequestError>)
        ensures
            match r {
                Ok(req) => prev_msgid != self@ && req@ == v1_request(
                    self@,
                    RequestKind::Flush,
                    seq![ValueV::uint(prev_msgid as u64)],
                ),
                Err(e) => prev_msgid == self@ && e@ == BuildRequestErrorV::Flush(prev_msgid),
            },
    {
        if prev_msgid == self.id {
            return Err(BuildRequestError::Flush(prev_msgid));
        }
        let mut msgargs: Vec<Value> = Vec::new();
        msgargs.push(Value::from_u64(prev_msgid as u64));
        proof {
            assert(view_items(msgargs@) =~= seq![ValueV::uint(prev_msgid as u64)]);
        }
        Ok(RequestMessage::new(self.id, RequestKind::Flush, msgargs))
    }

    /// Attach to the root directory of a given service; the auth file id is
    /// assumed to have been set up by a preceding auth request.
    ///
    /// Arguments: file id of the root directory, file id of the auth file,
    /// user name, service name.
    ///
    /// # Errors
    ///
    /// `Attach(MatchingID)` when the two file ids are equal, else
    /// `Attach(NameError)` when the user name, or else the service name, is
    /// empty or holds whitespace or control characters.
    pub fn attach(self, rootdir_id: u32, authfile_id: u32, username: &str, fsname: &str) -> (r:
        Result<Request, BuildRequestError>)
        ensures
            match r {
                Ok(req) => {
                    &&& rootdir_id != authfile_id
                    &&& printable(username@, false)
                    &&& printable(fsname@, false)
                    &&& req@ == v1_request(
                        self@,
                        RequestKind::Attach,
                        seq![
                            ValueV::uint(rootdir_id as u64),
                            ValueV::uint(authfile_id as u64),
                            ValueV::str(username@),
                            ValueV::str(fsname@),
                        ],
                    )
                },
                Err(e) => if rootdir_id == authfile_id {
                    e@ == BuildRequestErrorV::Attach(BuildAttachErrorV::MatchingID(rootdir_id))
                } else if !printable(username@, false) {
                    e@ == BuildRequestErrorV::Attach(
                        BuildAttachErrorV::NameError(CheckNameErrorV::WSNotPrintable("username"@)),
                    )
                } else {
                    !printable(fsname@, false) && e@ == BuildRequestErrorV::Attach(
                        BuildAttachErrorV::NameError(
                            CheckNameErrorV::WSNotPrintable("filesystem name"@),
                        ),
                    )
                },
            },
    {
        if rootdir_id == authfile_id {
            let err = BuildAttachError::MatchingID(rootdir_id);
            return Err(BuildRequestError::Attach(err));
        }
        if let Err(e) = check_name("username", username, false) {
            return Err(BuildRequestError::Attach(BuildAttachError::NameError(e)));
        }
        if let Err(e) = check_name("filesystem name", fsname, false) {
            return Err(BuildRequestError::Attach(BuildAttachError::NameError(e)));
        }
        let mut msgargs: Vec<Value> = Vec::new();
        msgargs.push(Value::from_u64(rootdir_id as u64));
        msgargs.push(Value::from_u64(authfile_id as u64));
        msgargs.push(Value::from_str(username));
        msgargs.push(Value::from_str(fsname));
        proof {
            assert(view_items(msgargs@) =~= seq![
                ValueV::uint(rootdir_id as u64),
                ValueV::uint(authfile_id as u64),
                ValueV::str(username@),
                ValueV::str(fsname@),
            ]);
        }
        Ok(RequestMessage::new(self.id, RequestKind::Attach, msgargs))
    }

    /// Walk a directory hierarchy.
    ///
    /// Arguments: existing file id, new file id of the walk result, list of
    /// path element strings to walk through.
    ///
    /// # Errors
    ///
    /// `Walk` when the new file id equals the existing file id.
    pub fn walk(self, file_id: u32, newfile_id: u32, path: Vec<&str>) -> (r: Result<
        Request,
        BuildRequestError,
    >)
        ensures
            match r {
                Ok(req) => file_id != newfile_id && req@ == v1_request(
                    self@,
                    RequestKind::Walk,
                    seq![
                        ValueV::uint(file_id as u64),
                        ValueV::uint(newfile_id as u64),
                        ValueV::Array(str_values(path@)),
                    ],
                ),
                Err(e) => file_id == newfile_id && e@ == BuildRequestErrorV::Walk(newfile_id),
            },
    {
        if file_id == newfile_id {
            return Err(BuildRequestError::Walk(newfile_id));
        }
        let mut pathargs: Vec<Value> = Vec::new();
        let mut i: usize = 0;
        while i < path.len()
            invariant
                i <= path.len(),
                pathargs@.len() == i,
                forall|j: int| 0 <= j < i ==> (#[trigger] pathargs@[j])@ == ValueV::str(path@[j]@),
            decreases path.len() - i,
        {
            pathargs.push(Value::from_str(path[i]));
            i += 1;
        }
        let mut msgargs: Vec<Value> = Vec::new();
        msgargs.push(Value::from_u64(file_id as u64));
        msgargs.push(Value::from_u64(newfile_id as u64));
        let ghost pathview = view_items(pathargs@);
        msgargs.push(Value::from_array(pathargs));
        proof {
            assert(pathview =~= str_values(path@));
            assert(view_items(msgargs@) =~= seq![
                ValueV::uint(file_id as u64),
                ValueV::uint(newfile_id as u64),
                ValueV::Array(str_values(path@)),
            ]);
        }
        Ok(RequestMessage::new(self.id, RequestKind::Walk, msgargs))
    }

    /// Prepare an existing file id for I/O.
    ///
    /// Arguments: existing file id, mode.
    pub fn open(self, file_id: u32, mode: OpenMode) -> (r: Request)
        ensures
            r@ == v1_request(
                self@,
                RequestKind::Open,
                seq![ValueV::uint(file_id as u64), ValueV::uint(mode@ as u64)],
            ),
    {
        let mut msgargs: Vec<Value> = Vec::new();
        msgargs.push(Value::from_u64(file_id as u64));
        msgargs.push(Value::from_u64(mode.bits() as u64));
        proof {
            assert(view_items(msgargs@) =~= seq![ValueV::uint(file_id as u64), ValueV::uint(mode@ as u64)]);
        }
        RequestMessage::new(self.id, RequestKind::Open, msgargs)
    }

    /// Create a file and open it for I/O.
    ///
    /// Arguments: existing file id, name of the new file, mode.
    ///
    /// # Errors
    ///
    /// `Create` when the file name is empty or holds whitespace or control
    /// characters.
    pub fn create(self, file_id: u32, filename: &str, mode: OpenMode) -> (r: Result<
        Request,
        BuildRequestError,
    >)
        ensures
            match r {
                Ok(req) => printable(filename@, false) && req@ == v1_request(
                    self@,
                    RequestKind::Create,
                    seq![
                        ValueV::uint(file_id as u64),
                        ValueV::str(filename@),
                        ValueV::uint(mode@ as u64),
                    ],
                ),
                Err(e) => !printable(filename@, false) && e@ == BuildRequestErrorV::Create(
                    CheckNameErrorV::WSNotPrintable("filename"@),
                ),
            },
    {
        if let Err(e) = check_name("filename", filename, false) {
            return Err(BuildRequestError::Create(e));
        }
        let mut msgargs: Vec<Value> = Vec::new();
        msgargs.push(Value::from_u64(file_id as u64));
        msgargs.push(Value::from_str(filename));
        msgargs.push(Value::from_u64(mode.bits() as u64));
        proof {
            assert(view_items(msgargs@) =~= seq![
                ValueV::uint(file_id as u64),
                ValueV::str(filename@),
                ValueV::uint(mode@ as u64),
            ]);
        }
        Ok(RequestMessage::new(self.id, RequestKind::Create, msgargs))
    }

    /// Request a number of bytes from a file.
    ///
    /// Arguments: existing file id, starting offset, number of bytes.
    pub fn read(self, file_id: u32, offset: u64, count: u32) -> (r: Request)
        ensures
            r@ == v1_request(
                self@,
                RequestKind::Read,
                seq![ValueV::uint(file_id as u64), ValueV::uint(offset), ValueV::uint(count as u64)],
            ),
    {
        let mut msgargs: Vec<Value> = Vec::new();
        msgargs.push(Value::from_u64(file_id as u64));
        msgargs.push(Value::from_u64(offset));
        msgargs.push(Value::from_u64(count as u64));
        proof {
            assert(view_items(msgargs@) =~= seq![
                ValueV::uint(file_id as u64),
                ValueV::uint(offset),
                ValueV::uint(count as u64),
            ]);
        }
        RequestMessage::new(self.id, RequestKind::Read, msgargs)
    }

    /// Forget a file id.
    ///
    /// Single argument: existing file id.
    pub fn clunk(self, file_id: u32) -> (r: Request)
        ensures
            r@ == v1_request(self@, RequestKind::Clunk, seq![ValueV::uint(file_id as u64)]),
    {
        let mut msgargs: Vec<Value> = Vec::new();
        msgargs.push(Value::from_u64(file_id as u64));
        proof {
            assert(view_items(msgargs@) =~= seq![ValueV::uint(file_id as u64)]);
        }
        RequestMessage::new(self.id, RequestKind::Clunk, msgargs)
    }

    /// Remove a file from the server.
    ///
    /// Single argument: existing file id.
    pub fn remove(self, file_id: u32) -> (r: Request)
        ensures
            r@ == v1_request(self@, RequestKind::Remove, seq![ValueV::uint(file_id as u64)]),
    {
        let mut msgargs: Vec<Value> = Vec::new();
        msgargs.push(Value::from_u64(file_id as u64));
        proof {
            assert(view_items(msgargs@) =~= seq![ValueV::uint(file_id as u64)]);
        }
        RequestMessage::new(self.id, RequestKind::Remove, msgargs)
    }
}

/// A request builder for the message id `msgid`.
pub fn request(msgid: u32) -> (r: RequestBuilder)
    ensures
        r@ == msgid,
{
    RequestBuilder::new(msgid)
}

} // verus!
