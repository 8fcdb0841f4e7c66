//! Plain records of the arguments that each version 1 request carries.
//!
//! These hold decoded request data as values; the message kind and the
//! message category are not repeated here.

use vstd::prelude::*;

verus! {

/// The opening request of a session: the message id and the protocol
/// version that the client speaks.
#[derive(Debug, PartialEq, Eq, Clone)]
pub struct InitRequest {
    pub id: u32,
    pub version: u32,
}

/// Arguments of an auth request.
#[derive(Debug, PartialEq, Eq, Clone)]
pub struct AuthData {
    pub authfile_id: u32,
    pub username: String,
    pub fsname: String,
}

/// Setup the client authentication file.
///
/// Arguments: file id of the auth file, user name and service name.
#[derive(Debug, PartialEq, Eq, Clone)]
pub struct AuthRequest {
    pub id: u32,
    pub args: AuthData,
}

/// Abort a previous request if it has not been processed yet.
///
/// Single argument: the message id of the previous request.
#[derive(Debug, PartialEq, Eq, Clone)]
pub struct FlushRequest {
    pub id: u32,
    pub message_id: u32,
}

/// Arguments of an attach request.
#[derive(Debug, PartialEq, Eq, Clone)]
pub struct AttachData {
    pub rootdir_id: u32,
    pub authfile_id: u32,
    pub username: String,
    pub fsname: String,
}

/// Attach to the root directory of a given service.
///
/// The auth file id is assumed to have been set up by a preceding auth
/// request.
#[derive(Debug, PartialEq, Eq, Clone)]
pub struct AttachRequest {
    pub id: u32,
    pub args: AttachData,
}

/// Arguments of a walk request.
#[derive(Debug, PartialEq, Eq, Clone)]
pub struct WalkData {
    pub file_id: u32,
    pub newfile_id: u32,
    pub path: Vec<String>,
}

/// Walk a directory hierarchy.
///
/// Arguments: existing file id, new file id of the walk result, and the
/// path elements to walk through.
#[derive(Debug, PartialEq, Eq, Clone)]
pub struct WalkRequest {
    pub id: u32,
    pub args: WalkData,
}

/// Arguments of an open request; `mode` is read as an `OpenMode`.
#[derive(Debug, PartialEq, Eq, Clone)]
pub struct OpenData {
    pub file_id: u32,
    pub mode: u8,
}

/// Prepare an existing file id for I/O.
#[derive(Debug, PartialEq, Eq, Clone)]
pub struct OpenRequest {
    pub id: u32,
    pub args: OpenData,
}

/// Arguments of a create request; `mode` is read as an `OpenMode`.
#[derive(Debug, PartialEq, Eq, Clone)]
pub struct CreateData {
    pub file_id: u32,
    pub filename: String,
    pub mode: u8,
}

/// Create a file and open it for I/O.
#[derive(Debug, PartialEq, Eq, Clone)]
pub struct CreateRequest {
    pub id: u32,
    pub args: CreateData,
}

/// Arguments of a read request.
#[derive(Debug, PartialEq, Eq, Clone)]
pub struct ReadData {
    pub file_id: u32,
    pub offset: u64,
    pub count: u32,
}

/// Request a number of bytes from a file.
#[derive(Debug, PartialEq, Eq, Clone)]
pub struct ReadRequest {
    pub id: u32,
    pub args: ReadData,
}

/// Arguments of a write request.
#[derive(Debug, PartialEq, Eq, Clone)]
pub struct WriteData {
    pub file_id: u32,
    pub offset: u64,
    pub count: u32,
    pub data: Vec<u8>,
}

/// Request that a number of bytes be recorded to a file.
#[derive(Debug, PartialEq, Eq, Clone)]
pub struct WriteRequest {
    pub id: u32,
    pub args: WriteData,
}

/// Forget a file id.
#[derive(Debug, PartialEq, Eq, Clone)]
pub struct ClunkRequest {
    pub id: u32,
    pub category: u8,
    pub kind: u8,
    pub file_id: u32,
}

/// Remove a file from the server.
#[derive(Debug, PartialEq, Eq, Clone)]
pub struct RemoveRequest {
    pub id: u32,
    pub file_id: u32,
}

/// Retrieve file attributes.
#[derive(Debug, PartialEq, Eq, Clone)]
pub struct StatRequest {
    pub id: u32,
    pub file_id: u32,
}

/// New attributes of a file.
#[derive(Debug, PartialEq, Eq, Clone)]
pub struct WStatData {
    /// The high 8 bits are a copy of the file kind, the other 24 bits are
    /// permissions.
    pub mode: u32,
    /// Last modified time, an RFC 3339 date string.
    pub mtime: String,
    /// Length of the file in bytes.
    pub length: u64,
    /// File name.
    pub name: String,
    /// Group name.
    pub gid: String,
}

/// Change file attributes.
#[derive(Debug, PartialEq, Eq, Clone)]
pub struct WStatRequest {
    pub id: u32,
    pub args: WStatData,
}

} // verus!
