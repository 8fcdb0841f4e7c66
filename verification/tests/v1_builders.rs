use siminau_rpc::message::v1::{
    openmode, request, response, BuildAttachError, BuildRequestError, BuildResponseError,
    CheckNameError, FileID, FileKind, OpenFlag, OpenKind, ProtocolResponse, RequestCode,
    ResponseCode,
};
use siminau_rpc::rpccore::request::RpcRequest;
use siminau_rpc::rpccore::response::RpcResponse;
use siminau_rpc::rpccore::RpcMessage;
use siminau_rpc::value::Value;

fn invalid_kind() -> FileKind {
    FileKind::dir().union(FileKind::auth())
}

#[test]
fn responsebuilder_invalid_fileid() {
    let req = request(42).auth(9001, "hello", "world").unwrap();
    let fileid = FileID::new(invalid_kind(), 0, 0);
    assert!(!fileid.is_valid());
    let result = response(&req).auth(fileid);
    let val = match result {
        Err(e @ BuildResponseError::Auth(_)) => {
            let expected = format!(
                "Unable to build auth response message: file id has invalid kind {}",
                fileid.kind.bits()
            );
            e.to_string() == expected
        }
        _ => false,
    };
    assert!(val);
}

#[test]
fn responsebuilder_attach_invalid_fileid() {
    let req = request(42).attach(0, 1, "hello", "world").unwrap();
    let fileid = FileID::new(invalid_kind(), 0, 0);
    assert!(!fileid.is_valid());
    let result = response(&req).attach(fileid);
    let val = match result {
        Err(e @ BuildResponseError::Attach(_)) => {
            let expected = format!(
                "Unable to build attach response message: rootfile_id has invalid kind {}",
                fileid.kind.bits()
            );
            e.to_string() == expected
        }
        _ => false,
    };
    assert!(val);
}

#[test]
fn auth_valid_fileid() {
    for (bits, version, path) in [(0u8, 0u32, 0u64), (0x80, 7, 9001), (0x10, u32::MAX, u64::MAX)] {
        let kind = FileKind::from_bits(bits).unwrap();
        assert!(kind.is_valid());
        let req = request(42).auth(9001, "hello", "world").unwrap();
        let fileid = FileID::new(kind, version, path);
        let msg = response(&req).auth(fileid).unwrap();
        assert_eq!(msg.message_id(), req.message_id());
        assert_eq!(msg.error_code(), ResponseCode::Auth);
        let resp_fileid = msg.result().as_array().unwrap();
        assert_eq!(resp_fileid.len(), 3);
        let k = FileKind::from_bits(resp_fileid[0].as_u64().unwrap() as u8).unwrap();
        let back = FileID::new(k, resp_fileid[1].as_u64().unwrap() as u32, resp_fileid[2].as_u64().unwrap());
        assert!(back.is_valid());
        assert_eq!(back, fileid);
        assert_eq!(msg.as_fileid(), Some(fileid));
    }
}

#[test]
fn non_auth_request() {
    let req = request(42).flush(41).unwrap();
    let fileid = FileID::new(FileKind::dir(), 1, 2);
    match response(&req).auth(fileid) {
        Err(e @ BuildResponseError::WrongCode { .. }) => assert_eq!(
            e.to_string(),
            "Unable to build response message: expected RequestCode::Auth, got RequestCode::Flush instead"
        ),
        _ => panic!("expected a wrong code error"),
    }
}

#[test]
fn valid_message_id() {
    let req = request(42).flush(41).unwrap();
    let val = match response(&req).flush() {
        Ok(msg) => msg.message_id() == req.message_id(),
        Err(_) => false,
    };
    assert!(val);
}

#[test]
fn valid_response_code() {
    let req = request(42).flush(41).unwrap();
    let val = match response(&req).flush() {
        Ok(msg) => msg.error_code() == ResponseCode::Flush,
        Err(_) => false,
    };
    assert!(val);
}

#[test]
fn non_flush_request() {
    let req = request(42).auth(9001, "hello", "world").unwrap();
    let val = match response(&req).flush() {
        Err(e @ BuildResponseError::WrongCode { .. }) => {
            e.to_string()
                == "Unable to build response message: expected RequestCode::Flush, got RequestCode::Auth instead"
        }
        _ => false,
    };
    assert!(val);
}

#[test]
fn walk_response() {
    let req = request(42).walk(1, 2, vec!["a", "b"]).unwrap();
    let ids = vec![FileID::new(FileKind::dir(), 0, 1), FileID::new(FileKind::file(), 0, 2)];
    let msg = response(&req).walk(&ids).unwrap();
    assert_eq!(msg.error_code(), ResponseCode::Walk);
    assert_eq!(msg.result().as_array().unwrap().len(), 2);
    let bad = vec![FileID::new(FileKind::dir(), 0, 1), FileID::new(invalid_kind(), 0, 2)];
    match response(&req).walk(&bad) {
        Err(e @ BuildResponseError::Walk { .. }) => assert_eq!(
            e.to_string(),
            format!(
                "Unable to build walk response message: item 1 of path_id has invalid kind {}",
                invalid_kind().bits()
            )
        ),
        _ => panic!("expected a walk error"),
    }
}

#[test]
fn open_and_create_responses() {
    let mode = openmode().kind(OpenKind::Read).flags(OpenFlag::otrunc()).create();
    let req = request(42).open(1, mode);
    let fid = FileID::new(FileKind::file(), 3, 4);
    let msg = response(&req).open(fid, 512).unwrap();
    assert_eq!(msg.error_code(), ResponseCode::Open);
    let args = msg.result().as_array().unwrap();
    assert_eq!(args[1].as_u64(), Some(512));
    match response(&req).open(FileID::new(invalid_kind(), 0, 0), 1) {
        Err(e @ BuildResponseError::Open(_)) => assert_eq!(
            e.to_string(),
            format!("Unable to build open response message: file id has invalid kind {}", invalid_kind().bits())
        ),
        _ => panic!("expected an open error"),
    }
    let creq = request(43).create(1, "new", mode).unwrap();
    let msg = response(&creq).create(fid, 0).unwrap();
    assert_eq!(msg.error_code(), ResponseCode::Create);
    assert!(response(&creq).open(fid, 0).is_err());
}

#[test]
fn read_response() {
    let req = request(42).read(42, 0, 3);
    let msg = response(&req).read(3, &[1, 2, 3]).unwrap();
    assert_eq!(msg.error_code(), ResponseCode::Read);
    let args = msg.result().as_array().unwrap();
    assert_eq!(args[0].as_u64(), Some(3));
    assert_eq!(args[1].as_slice(), Some(&[1u8, 2, 3][..]));
    match response(&req).read(2, &[1, 2, 3]) {
        Err(e @ BuildResponseError::Read(..)) => assert_eq!(
            e.to_string(),
            "Unable to build create response message: bytes read (2) does not match read count (3)"
        ),
        _ => panic!("expected a read error"),
    }
}

#[test]
fn responsebuilder_bad_request() {
    let req = request(42).read(42, 0, 42);
    let val = match response(&req).write(0) {
        Err(BuildResponseError::WrongCode { value, expected }) => {
            value == req.message_method() && expected == RequestCode::Write
        }
        _ => false,
    };
    assert!(val);
}

#[test]
fn responsebuilder_bad_request_clunk() {
    let req = request(42).read(42, 0, 42);
    let val = match response(&req).clunk() {
        Err(BuildResponseError::WrongCode { value, expected }) => {
            value == req.message_method() && expected == RequestCode::Clunk
        }
        _ => false,
    };
    assert!(val);
}

#[test]
fn responsebuilder_bad_request_remove() {
    let req = request(42).read(42, 0, 42);
    let val = match response(&req).remove() {
        Err(BuildResponseError::WrongCode { value, expected }) => {
            value == req.message_method() && expected == RequestCode::Remove
        }
        _ => false,
    };
    assert!(val);
}

#[test]
fn clunk_and_remove_make_response() {
    for file_id in [0u32, 42, u32::MAX] {
        let req = request(42).clunk(file_id);
        let msg = response(&req).clunk().unwrap();
        assert_eq!(msg.message_id(), req.message_id());
        assert_eq!(msg.error_code(), ResponseCode::Clunk);
        assert_eq!(msg.result(), &Value::Nil);
        let req = request(43).remove(file_id);
        let msg = response(&req).remove().unwrap();
        assert_eq!(msg.message_id(), 43);
        assert_eq!(msg.error_code(), ResponseCode::Remove);
        assert_eq!(msg.result(), &Value::Nil);
    }
}

#[test]
fn request_builder_messages() {
    let req = request(7).auth(1, "alice", "fs").unwrap();
    assert_eq!(req.message_id(), 7);
    assert_eq!(req.message_method(), RequestCode::Auth);
    assert_eq!(
        req.message_args(),
        &vec![Value::from_u64(1), Value::from_str("alice"), Value::from_str("fs")]
    );
    let req = request(7).flush(6).unwrap();
    assert_eq!(req.message_args(), &vec![Value::from_u64(6)]);
    assert!(request(7).flush(7).is_err());
    let req = request(8).read(1, 100, 10);
    assert_eq!(req.message_method(), RequestCode::Read);
    assert_eq!(req.as_vec().len(), 4);
}

#[test]
fn request_builder_refuses_bad_names() {
    match request(7).auth(1, "", "fs") {
        Err(BuildRequestError::Auth(CheckNameError::WSNotPrintable(var))) => {
            assert_eq!(var, "username")
        }
        other => panic!("unexpected {:?}", other),
    }
    match request(7).attach(0, 1, "alice", "bad\nname") {
        Err(BuildRequestError::Attach(BuildAttachError::NameError(CheckNameError::WSNotPrintable(var)))) => {
            assert_eq!(var, "filesystem name")
        }
        other => panic!("unexpected {:?}", other),
    }
    match request(7).attach(1, 1, "alice", "fs") {
        Err(e @ BuildRequestError::Attach(BuildAttachError::MatchingID(1))) => {
            assert_eq!(e.to_string(), "Unable to build attach request message")
        }
        other => panic!("unexpected {:?}", other),
    }
    assert!(request(7).walk(1, 2, vec!["ok", "no\u{7}"]).is_ok());
    assert!(request(7).walk(2, 2, vec!["ok"]).is_err());
    assert!(request(7).create(1, "", openmode().create()).is_err());
}

// An auth response for a file id of an invalid kind is refused.
#[test]
fn v1_invalid_fileid() {
    let req = request(42).auth(9001, "hello", "world").unwrap();
    let fileid = FileID::new(invalid_kind(), 0, 0);
    assert!(!fileid.is_valid());
    match response(&req).auth(fileid) {
        Err(BuildResponseError::Auth(bits)) => assert_eq!(bits, fileid.kind.bits()),
        _ => panic!("expected an auth error"),
    }
}
