use siminau_rpc::rpccore::new::MessageCategory as TestError;
use siminau_rpc::rpccore::response::{
    ResponseCodeError, ResponseMessage, RpcResponse, ToResponseError,
};
use siminau_rpc::rpccore::{CheckIntError, CodeConvert, Message, MessageType, RpcMessage};
use siminau_rpc::value::Value;

type Response = ResponseMessage<TestError>;

fn num(n: u64) -> Value {
    Value::from_u64(n)
}

fn response_type() -> Value {
    num(MessageType::Response.to_number() as u64)
}

fn one() -> Value {
    num(TestError::Request.to_number() as u64)
}

fn from_items(items: Vec<Value>) -> Result<Response, ToResponseError> {
    let msg = Message::from(Value::from_array(items)).unwrap();
    Response::from(msg)
}

fn valid_response() -> (Message, Response) {
    let val = Value::from_array(vec![response_type(), num(42), one(), num(42)]);
    let msg = Message::from(val).unwrap();
    let expected = msg.clone();
    (expected, Response::from(msg).unwrap())
}

#[test]
fn messagetype_always_response() {
    for (msgid, err) in [(0u32, 0u8), (42, 1), (u32::MAX, 2)] {
        let expected =
            Value::from_array(vec![response_type(), num(msgid as u64), num(err as u64), num(42)]);
        let resp = Response::new(msgid, TestError::from_number(err).unwrap(), num(42));
        assert_eq!(resp.as_value(), &expected);
    }
}

#[test]
fn response_invalid_arraylen() {
    let val = match from_items(vec![response_type(), num(42), one()]) {
        Err(e @ ToResponseError::ArrayLength(_)) => {
            e.to_string() == "Expected array length of 4, got 3".to_string()
        }
        _ => false,
    };
    assert!(val);
}

#[test]
fn response_invalid_messagetype() {
    let expected = MessageType::Notification.to_number();
    match from_items(vec![num(expected as u64), num(42), one(), num(42)]) {
        Err(e @ ToResponseError::InvalidType(_)) => {
            assert_eq!(e.to_string(), "Invalid response message type".to_owned());
            let msg = format!(
                "Expected response message type value {}, got {}",
                MessageType::Response.to_number(),
                MessageType::Notification.to_number(),
            );
            match e {
                ToResponseError::InvalidType(cause) => assert_eq!(cause.to_string(), msg),
                _ => unreachable!(),
            }
        }
        _ => panic!("expected an invalid type error"),
    }
}

#[test]
fn response_message_id_invalid_type() {
    match from_items(vec![response_type(), Value::from_str("hello"), one(), num(42)]) {
        Err(e @ ToResponseError::InvalidID(_)) => {
            assert_eq!(e.to_string(), "Invalid response message id".to_owned());
            match e {
                ToResponseError::InvalidID(cause) => {
                    assert_eq!(cause.to_string(), "Expected u32 but got None".to_owned());
                }
                _ => unreachable!(),
            }
        }
        _ => panic!("expected an invalid id error"),
    }
}

#[test]
fn response_message_id_invalid_value() {
    for msgid in [u32::MAX as u64 + 1, u64::MAX] {
        match from_items(vec![response_type(), num(msgid), one(), num(42)]) {
            Err(ToResponseError::InvalidID(cause)) => {
                let expected = format!("Expected value <= {} but got value {}", u32::MAX, msgid);
                assert_eq!(cause.to_string(), expected);
            }
            _ => panic!("expected an invalid id error"),
        }
    }
}

#[test]
fn error_code_invalid_type() {
    match from_items(vec![response_type(), num(42), Value::from_str("hello"), num(42)]) {
        Err(e @ ToResponseError::InvalidCode(_)) => {
            assert_eq!(e.to_string(), "Invalid response message code".to_owned());
            match e {
                ToResponseError::InvalidCode(code_err) => {
                    assert_eq!(code_err.to_string(), "Invalid response code value".to_owned());
                    match code_err {
                        ResponseCodeError::InvalidValue(cause @ CheckIntError::MissingValue { .. }) => {
                            assert_eq!(cause.to_string(), "Expected a value but got None".to_owned())
                        }
                        _ => panic!("expected an invalid value"),
                    }
                }
                _ => unreachable!(),
            }
        }
        _ => panic!("expected an invalid code error"),
    }
}

#[test]
fn error_code_invalid_value() {
    for msgcode in [256u64, 9001, u64::MAX] {
        match from_items(vec![response_type(), num(42), num(msgcode), num(42)]) {
            Err(ToResponseError::InvalidCode(ResponseCodeError::InvalidValue(cause))) => {
                let expected =
                    format!("Expected value <= {} but got value {}", TestError::max_number(), msgcode);
                assert_eq!(cause.to_string(), expected);
            }
            _ => panic!("expected an invalid code error"),
        }
    }
}

#[test]
fn response_as_vec() {
    let (expected, res) = valid_response();
    assert_eq!(res.as_vec(), expected.as_vec())
}

#[test]
fn response_as_value() {
    let (expected, res) = valid_response();
    assert_eq!(res.as_value(), expected.as_value())
}

#[test]
fn response_message_id() {
    let (expected, res) = valid_response();
    let expected = expected.as_vec()[1].as_u64().unwrap() as u32;
    assert_eq!(res.message_id(), expected)
}

#[test]
fn response_error_code() {
    let (expected, res) = valid_response();
    let code = expected.as_vec()[2].as_u64().unwrap() as u8;
    assert_eq!(res.error_code(), TestError::from_number(code).unwrap())
}

#[test]
fn result() {
    let (expected, res) = valid_response();
    let expected = &expected.as_vec()[3];
    assert_eq!(res.result(), expected)
}

#[test]
fn response_new_from_roundtrip() {
    let resp = Response::new(7, TestError::Notification, Value::from_str("done"));
    let back = Response::from(resp.into_message()).unwrap();
    assert_eq!(back.message_id(), 7);
    assert_eq!(back.error_code(), TestError::Notification);
    assert_eq!(back.result(), &Value::from_str("done"));
}
