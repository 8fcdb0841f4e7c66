//! Plain records of what each version 1 response carries.

use vstd::prelude::*;

verus! {

/// A server's identifier of a file, as it travels in a response.
#[derive(Debug, PartialEq, Eq, Clone, Copy)]
pub struct FileID {
    pub kind: u8,
    pub version: u32,
    pub path: u64,
}

/// Answer to an init request: the protocol version the server speaks.
#[derive(Debug, PartialEq, Eq, Clone)]
pub struct InitResponse {
    pub id: u32,
    pub category: u8,
    pub kind: u8,
    pub version: u32,
}

/// A request failed; `error_msg` says why.
#[derive(Debug, PartialEq, Eq, Clone)]
pub struct ErrorResponse {
    pub id: u32,
    pub category: u8,
    pub kind: u8,
    pub error_msg: String,
}

/// The auth file was set up under `server_id`.
#[derive(Debug, PartialEq, Eq, Clone)]
pub struct AuthResponse {
    pub id: u32,
    pub category: u8,
    pub kind: u8,
    pub server_id: FileID,
}

/// The flushed request was aborted.
#[derive(Debug, PartialEq, Eq, Clone)]
pub struct FlushResponse {
    pub id: u32,
    pub category: u8,
    pub kind: u8,
}

/// The service's root directory is known under `rootdir_id`.
#[derive(Debug, PartialEq, Eq, Clone)]
pub struct AttachResponse {
    pub id: u32,
    pub category: u8,
    pub kind: u8,
    pub rootdir_id: FileID,
}

/// The identifiers of each walked path element.
#[derive(Debug, PartialEq, Eq, Clone)]
pub struct WalkResponse {
    pub id: u32,
    pub category: u8,
    pub kind: u8,
    pub path_id: Vec<FileID>,
}

/// What an open or create response carries: the file's identifier and the
/// largest number of bytes one message may carry.
#[derive(Debug, PartialEq, Eq, Clone)]
pub struct OpenCreateData {
    pub file_id: FileID,
    pub max_size: u32,
}

/// The file was opened.
#[derive(Debug, PartialEq, Eq, Clone)]
pub struct OpenResponse {
    pub id: u32,
    pub category: u8,
    pub kind: u8,
    pub args: OpenCreateData,
}

/// The file was created and opened.
#[derive(Debug, PartialEq, Eq, Clone)]
pub struct CreateResponse {
    pub id: u32,
    pub category: u8,
    pub kind: u8,
    pub args: OpenCreateData,
}

/// What a read response carries: the number of bytes and the bytes.
#[derive(Debug, PartialEq, Eq, Clone)]
pub struct ReadData {
    pub count: u32,
    pub data: Vec<u8>,
}

/// The bytes that were read.
#[derive(Debug, PartialEq, Eq, Clone)]
pub struct ReadResponse {
    pub id: u32,
    pub category: u8,
    pub kind: u8,
    pub args: ReadData,
}

/// The number of bytes that were written.
#[derive(Debug, PartialEq, Eq, Clone)]
pub struct WriteResponse {
    pub id: u32,
    pub category: u8,
    pub kind: u8,
    pub count: u32,
}

/// The file id was forgotten.
#[derive(Debug, PartialEq, Eq, Clone)]
pub struct ClunkResponse {
    pub id: u32,
    pub category: u8,
    pub kind: u8,
}

/// The file was removed.
#[derive(Debug, PartialEq, Eq, Clone)]
pub struct RemoveResponse {
    pub id: u32,
    pub category: u8,
    pub kind: u8,
}

} // verus!
