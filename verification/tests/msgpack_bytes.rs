use siminau_rpc::proto::msgpack::{
    message_from_bytes, notice_from_bytes, request_from_bytes, response_from_bytes,
    value_from_bytes, FromBytesError,
};
use siminau_rpc::rpccore::new::MessageCategory as TestEnum;
use siminau_rpc::rpccore::notify::NotificationMessage;
use siminau_rpc::rpccore::request::{RequestMessage, ToRequestError};
use siminau_rpc::rpccore::response::ResponseMessage;
use siminau_rpc::rpccore::{Message, RpcMessage, ToMessageError};
use siminau_rpc::value::{Integer, Utf8String, Value};

type Request = RequestMessage<TestEnum>;
type Response = ResponseMessage<TestEnum>;
type Notice = NotificationMessage<TestEnum>;

// Helpers: the MessagePack bytes of a value, and the value of bytes.

fn to_rmpv(v: &Value) -> rmpv::Value {
    match v {
        Value::Nil => rmpv::Value::Nil,
        Value::Boolean(b) => rmpv::Value::Boolean(*b),
        Value::Integer(Integer::PosInt(n)) => rmpv::Value::from(*n),
        Value::Integer(Integer::NegInt(n)) => rmpv::Value::from(*n),
        Value::F32(bits) => rmpv::Value::F32(f32::from_bits(*bits)),
        Value::F64(bits) => rmpv::Value::F64(f64::from_bits(*bits)),
        Value::String(Utf8String::Str(s)) => rmpv::Value::from(s.as_str()),
        Value::String(Utf8String::Invalid(_)) => panic!("not used by these tests"),
        Value::Binary(b) => rmpv::Value::Binary(b.clone()),
        Value::Array(items) => rmpv::Value::Array(items.iter().map(to_rmpv).collect()),
        Value::MapEntries(e) => {
            rmpv::Value::Map(e.iter().map(|(k, v)| (to_rmpv(k), to_rmpv(v))).collect())
        }
        Value::Ext(t, d) => rmpv::Value::Ext(*t, d.clone()),
    }
}

fn as_bytes<M: RpcMessage>(msg: &M) -> Vec<u8> {
    rmp_serde::to_vec(&to_rmpv(msg.as_value())).unwrap()
}

fn from_bytes(buf: &mut Vec<u8>) -> Result<Option<Message>, FromBytesError<ToMessageError>> {
    message_from_bytes(buf)
}

fn decode(buf: &mut Vec<u8>) -> Option<Value> {
    value_from_bytes::<ToMessageError>(buf).unwrap()
}

fn uints(vals: &[u64]) -> Value {
    Value::from_array(vals.iter().map(|v| Value::from_u64(*v)).collect())
}

fn sample_request() -> Request {
    Request::new(42, TestEnum::Request, vec![Value::from_u64(9001)])
}

fn sample_response() -> Response {
    Response::new(42, TestEnum::Request, Value::from_u64(9001))
}

fn sample_notice() -> Notice {
    Notice::new(TestEnum::Request, vec![Value::from_u64(9001)])
}

// Message

#[test]
fn message_deserialize() {
    let msg = Message::from(uints(&[1, 42, 42])).unwrap();
    let expected = msg.clone();
    let mut msgpack = as_bytes(&msg);
    match from_bytes(&mut msgpack) {
        Ok(Some(m)) => assert_eq!(m.as_value(), expected.as_value()),
        _ => panic!("expected a message"),
    }
    assert!(msgpack.is_empty());
}

#[test]
fn message_deserialize_nobytes() {
    let mut buf = Vec::new();
    assert!(matches!(from_bytes(&mut buf), Ok(None)));
}

#[test]
fn message_deserialize_incomplete_message() {
    let msg = sample_request().into_message();
    let mut msgpack = as_bytes(&msg);
    assert!(!msgpack.is_empty());
    let size = msgpack.len() - 2;
    msgpack.truncate(size);
    assert!(matches!(from_bytes(&mut msgpack), Ok(None)));
    assert_eq!(msgpack.len(), size);
}

#[test]
fn message_deserialize_invalid_message() {
    let msg = sample_request().into_message();
    let mut msgpack = as_bytes(&msg);
    assert!(!msgpack.is_empty());
    let size = msgpack.len() / 2;
    msgpack.truncate(size);
    assert!(matches!(from_bytes(&mut msgpack), Err(FromBytesError::InvalidMarkerRead(_))));
}

#[test]
fn message_deserialize_not_a_message() {
    let mut msgpack = rmp_serde::to_vec(&rmpv::Value::from(42u64)).unwrap();
    assert!(matches!(
        from_bytes(&mut msgpack),
        Err(FromBytesError::InvalidMessage(ToMessageError::NotArray(_)))
    ));
}

// RequestMessage

#[test]
fn requestmessage_deserialize() {
    let req = sample_request();
    let mut msgpack = as_bytes(&req);
    match request_from_bytes::<TestEnum>(&mut msgpack) {
        Ok(Some(r)) => assert_eq!(r.as_value(), req.as_value()),
        _ => panic!("expected a request"),
    }
}

#[test]
fn requestmessage_deserialize_nobytes() {
    let mut buf = Vec::new();
    assert!(matches!(request_from_bytes::<TestEnum>(&mut buf), Ok(None)));
}

#[test]
fn requestmessage_deserialize_incomplete_message() {
    let mut msgpack = as_bytes(&sample_request());
    let size = msgpack.len() - 2;
    msgpack.truncate(size);
    assert!(matches!(request_from_bytes::<TestEnum>(&mut msgpack), Ok(None)));
}

#[test]
fn requestmessage_deserialize_invalid_message() {
    let mut msgpack = as_bytes(&sample_request());
    let size = msgpack.len() / 2;
    msgpack.truncate(size);
    assert!(matches!(request_from_bytes::<TestEnum>(&mut msgpack), Err(FromBytesError::InvalidMarkerRead(_))));
}

// ResponseMessage

#[test]
fn response_deserialize() {
    let resp = sample_response();
    let mut msgpack = as_bytes(&resp);
    match response_from_bytes::<TestEnum>(&mut msgpack) {
        Ok(Some(r)) => assert_eq!(r.as_value(), resp.as_value()),
        _ => panic!("expected a response"),
    }
}

#[test]
fn response_deserialize_nobytes() {
    let mut buf = Vec::new();
    assert!(matches!(response_from_bytes::<TestEnum>(&mut buf), Ok(None)));
}

#[test]
fn response_deserialize_incomplete_message() {
    let mut msgpack = as_bytes(&sample_response());
    let size = msgpack.len() - 2;
    msgpack.truncate(size);
    assert!(matches!(response_from_bytes::<TestEnum>(&mut msgpack), Ok(None)));
}

#[test]
fn response_deserialize_invalid_message() {
    let mut msgpack = as_bytes(&sample_response());
    let size = msgpack.len() / 2;
    msgpack.truncate(size);
    assert!(matches!(response_from_bytes::<TestEnum>(&mut msgpack), Err(FromBytesError::InvalidMarkerRead(_))));
}

// NotificationMessage

#[test]
fn notify_deserialize() {
    let notice = sample_notice();
    let mut msgpack = as_bytes(&notice);
    match notice_from_bytes::<TestEnum>(&mut msgpack) {
        Ok(Some(n)) => assert_eq!(n.as_value(), notice.as_value()),
        _ => panic!("expected a notification"),
    }
}

#[test]
fn notify_deserialize_nobytes() {
    let mut buf = Vec::new();
    assert!(matches!(notice_from_bytes::<TestEnum>(&mut buf), Ok(None)));
}

#[test]
fn notify_deserialize_incomplete_message() {
    let mut msgpack = as_bytes(&sample_notice());
    let size = msgpack.len() - 2;
    msgpack.truncate(size);
    assert!(matches!(notice_from_bytes::<TestEnum>(&mut msgpack), Ok(None)));
}

#[test]
fn notify_deserialize_invalid_message() {
    let mut msgpack = as_bytes(&sample_notice());
    let size = msgpack.len() / 2;
    msgpack.truncate(size);
    assert!(matches!(notice_from_bytes::<TestEnum>(&mut msgpack), Err(FromBytesError::InvalidMarkerRead(_))));
}

#[test]
fn request_from_bytes_refuses_notification() {
    let mut msgpack = as_bytes(&sample_notice());
    assert!(matches!(
        request_from_bytes::<TestEnum>(&mut msgpack),
        Err(FromBytesError::InvalidMessage(ToRequestError::ArrayLength(3)))
    ));
}

#[test]
fn request_from_bytes_refuses_non_message() {
    let mut msgpack = rmp_serde::to_vec(&rmpv::Value::from("hello")).unwrap();
    assert!(matches!(
        request_from_bytes::<TestEnum>(&mut msgpack),
        Err(FromBytesError::InvalidMessage(ToRequestError::MessageError(ToMessageError::NotArray(_))))
    ));
}

#[test]
fn two_messages_in_one_buffer() {
    let mut msgpack = as_bytes(&sample_request());
    msgpack.extend(as_bytes(&sample_notice()));
    assert!(matches!(request_from_bytes::<TestEnum>(&mut msgpack), Ok(Some(_))));
    assert!(matches!(notice_from_bytes::<TestEnum>(&mut msgpack), Ok(Some(_))));
    assert!(msgpack.is_empty());
}

// The bytes of a message decode to the message's value.
#[test]
fn message_serialize() {
    let msg = Message::from(uints(&[1, 42, 42])).unwrap();
    let mut buf = as_bytes(&msg);
    let expected = decode(&mut buf).unwrap();
    assert_eq!(&expected, msg.as_value());
}

#[test]
fn requestmessage_serialize() {
    let req = sample_request();
    let mut buf = as_bytes(&req);
    let expected = decode(&mut buf).unwrap();
    assert_eq!(&expected, req.as_value());
}

#[test]
fn response_serialize() {
    let resp = sample_response();
    let mut buf = as_bytes(&resp);
    let expected = decode(&mut buf).unwrap();
    assert_eq!(&expected, resp.as_value());
}

#[test]
fn notify_serialize() {
    let notice = sample_notice();
    let mut buf = as_bytes(&notice);
    let expected = decode(&mut buf).unwrap();
    assert_eq!(&expected, notice.as_value());
}

#[test]
// rmp-serde hands a string that is not valid UTF-8 to the value as bytes.
fn decode_keeps_invalid_string_bytes_and_floats() {
    let mut buf = vec![0xa3, b'a', 0xff, b'b'];
    assert_eq!(decode(&mut buf), Some(Value::Binary(vec![b'a', 0xff, b'b'])));
    assert!(buf.is_empty());
    let mut buf = vec![0xca, 0x3f, 0x80, 0x00, 0x00, 0xd0, 0xfe];
    assert_eq!(decode(&mut buf), Some(Value::F32(0x3f80_0000)));
    assert_eq!(decode(&mut buf), Some(Value::Integer(Integer::NegInt(-2))));
    assert_eq!(decode(&mut buf), None);
}
