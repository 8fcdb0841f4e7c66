use siminau_rpc::proto::msgpack::{FromBytesError, InitRequest};
use siminau_rpc::message::v1::request as v1request;
use siminau_rpc::rpccore::new::{DataKind, DateTime, MessageCategory};
use siminau_rpc::rpccore::{CodeConvert, ToMessageError};
use siminau_rpc::util::is_printable;
use rmp_serde::decode::Error;

#[test]
fn printable_names() {
    assert!(!is_printable("", true));
    assert!(!is_printable("", false));
    assert!(is_printable("hello", false));
    assert!(is_printable("hello world", true));
    assert!(!is_printable("hello world", false));
    assert!(!is_printable("tab\there", true));
    assert!(!is_printable("bell\u{7}", true));
    assert!(is_printable("héllo", false));
}

#[test]
fn message_category_codes() {
    assert_eq!(MessageCategory::from_number(1).unwrap(), MessageCategory::Response);
    assert_eq!(MessageCategory::Notification.to_u64(), 2);
    assert!(MessageCategory::from_u64(3).is_err());
}

#[test]
fn datakind_predicates() {
    let values = vec![
        DataKind::U8(1),
        DataKind::U16(1),
        DataKind::U32(1),
        DataKind::U64(1),
        DataKind::String("s".to_string()),
        DataKind::DateTime(DateTime { secs: 0, nanos: 0 }),
        DataKind::List(vec![DataKind::U8(1)]),
        DataKind::ByteList(vec![1]),
    ];
    for (i, v) in values.iter().enumerate() {
        let flags = [
            v.is_u8(),
            v.is_u16(),
            v.is_u32(),
            v.is_u64(),
            v.is_string(),
            v.is_datetime(),
            v.is_list(),
            v.is_bytelist(),
        ];
        for (j, f) in flags.iter().enumerate() {
            assert_eq!(*f, i == j);
        }
    }
}

#[test]
fn decode_errors_keep_their_fields() {
    let e: FromBytesError<ToMessageError> = FromBytesError::from(Error::OutOfRange);
    assert!(matches!(e, FromBytesError::OutOfRange));
    let e: FromBytesError<ToMessageError> = FromBytesError::from(Error::LengthMismatch(7));
    assert!(matches!(e, FromBytesError::LengthMismatch(7)));
    let e: FromBytesError<ToMessageError> =
        FromBytesError::from(Error::Syntax("bad".to_string()));
    assert!(matches!(e, FromBytesError::Syntax(ref s) if s == "bad"));
    let io = std::io::Error::new(std::io::ErrorKind::UnexpectedEof, "eof");
    let e: FromBytesError<ToMessageError> = FromBytesError::from(Error::InvalidMarkerRead(io));
    assert!(matches!(e, FromBytesError::InvalidMarkerRead(_)));
    let bytes = vec![b'a', 0xff, b'b'];
    let utf8 = std::str::from_utf8(&bytes).unwrap_err();
    let e: FromBytesError<ToMessageError> = FromBytesError::from(Error::Utf8Error(utf8));
    assert!(matches!(e, FromBytesError::Utf8Error(1)));
    let e: FromBytesError<ToMessageError> = FromBytesError::from(Error::DepthLimitExceeded);
    assert!(matches!(e, FromBytesError::DepthLimitExceeded));
}

#[test]
fn init_request_holds_record() {
    let req = InitRequest::new(v1request::InitRequest { id: 3, version: 1 });
    assert_eq!(req.id(), 3);
    assert_eq!(req.version(), 1);
}
