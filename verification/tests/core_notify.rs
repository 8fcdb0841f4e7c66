use siminau_rpc::rpccore::new::MessageCategory as TestCode;
use siminau_rpc::rpccore::notify::{
    NoticeCodeError, NotificationMessage, RpcNotice, ToNoticeError,
};
use siminau_rpc::rpccore::{CheckIntError, CodeConvert, Message, MessageType, RpcMessage};
use siminau_rpc::value::{value_type, Value};

type Notice = NotificationMessage<TestCode>;

fn num(n: u64) -> Value {
    Value::from_u64(n)
}

fn notice_type() -> Value {
    num(MessageType::Notification.to_number() as u64)
}

fn one() -> Value {
    num(TestCode::Request.to_number() as u64)
}

fn from_items(items: Vec<Value>) -> Result<Notice, ToNoticeError> {
    let msg = Message::from(Value::from_array(items)).unwrap();
    Notice::from(msg)
}

fn valid_notice() -> (Message, Notice) {
    let val = Value::from_array(vec![notice_type(), one(), Value::from_array(vec![num(42)])]);
    let msg = Message::from(val).unwrap();
    let expected = msg.clone();
    (expected, Notice::from(msg).unwrap())
}

#[test]
fn messagetype_always_notification() {
    for (code, args) in [(0u8, vec![]), (2, vec![1u64, 2, 3])] {
        let array: Vec<Value> = args.iter().map(|v| num(*v)).collect();
        let expected =
            Value::from_array(vec![notice_type(), num(code as u64), Value::from_array(array.clone())]);
        let notice = Notice::new(TestCode::from_number(code).unwrap(), array);
        assert_eq!(notice.as_value(), &expected);
    }
}

#[test]
fn notify_invalid_arraylen() {
    let val = match from_items(vec![notice_type(), one(), num(42), num(42)]) {
        Err(e @ ToNoticeError::ArrayLength(_)) => {
            e.to_string() == "Expected array length of 3, got 4".to_string()
        }
        _ => false,
    };
    assert!(val);
}

#[test]
fn notificationmessage_from_invalid_arraylen() {
    match from_items(vec![notice_type(), one(), num(42), num(42)]) {
        Err(ToNoticeError::ArrayLength(n)) => assert_eq!(n, 4),
        _ => panic!("expected an array length error"),
    }
}

#[test]
fn notify_invalid_messagetype() {
    let msgtype = num(MessageType::Request.to_number() as u64);
    match from_items(vec![msgtype, one(), num(42)]) {
        Err(e @ ToNoticeError::InvalidType(_)) => {
            assert_eq!(e.to_string(), "Invalid notification message type".to_owned());
            let expected = format!(
                "Expected notification message type value {}, got {}",
                MessageType::Notification.to_number(),
                MessageType::Request.to_number()
            );
            match e {
                ToNoticeError::InvalidType(cause) => assert_eq!(cause.to_string(), expected),
                _ => unreachable!(),
            }
        }
        _ => panic!("expected an invalid type error"),
    }
}

#[test]
fn notificationmessage_from_invalid_messagetype() {
    let msgtype = num(MessageType::Request.to_number() as u64);
    match from_items(vec![msgtype, one(), num(42)]) {
        Err(ToNoticeError::InvalidType(cause)) => {
            assert_eq!(cause.expected_type, MessageType::Notification.to_number());
            assert_eq!(cause.msgtype, MessageType::Request.to_number());
        }
        _ => panic!("expected an invalid type error"),
    }
}

#[test]
fn message_code_invalid_type() {
    match from_items(vec![notice_type(), Value::from_str("hello"), num(42)]) {
        Err(e @ ToNoticeError::InvalidCode(_)) => {
            assert_eq!(e.to_string(), "Invalid notification message code".to_owned());
            match e {
                ToNoticeError::InvalidCode(code_err @ NoticeCodeError::InvalidValue(_)) => {
                    assert_eq!(code_err.to_string(), "Invalid notification code value".to_owned());
                    match code_err {
                        NoticeCodeError::InvalidValue(cause) => {
                            assert_eq!(cause.to_string(), "Expected a value but got None".to_owned())
                        }
                        _ => unreachable!(),
                    }
                }
                _ => panic!("expected an invalid value"),
            }
        }
        _ => panic!("expected an invalid code error"),
    }
}

#[test]
fn notificationmessage_from_message_code_invalid_type() {
    match from_items(vec![notice_type(), Value::from_str("hello"), num(42)]) {
        Err(ToNoticeError::InvalidCode(NoticeCodeError::InvalidValue(
            CheckIntError::MissingValue { .. },
        ))) => {}
        _ => panic!("expected an invalid code error"),
    }
}

#[test]
fn message_code_invalid_value() {
    for msgcode in [256u64, 70000, u64::MAX] {
        match from_items(vec![notice_type(), num(msgcode), num(42)]) {
            Err(ToNoticeError::InvalidCode(code_err @ NoticeCodeError::InvalidValue(_))) => {
                assert_eq!(code_err.to_string(), "Invalid notification code value".to_owned());
                match code_err {
                    NoticeCodeError::InvalidValue(cause) => assert_eq!(
                        cause.to_string(),
                        format!("Expected value <= {} but got value {}", TestCode::max_number(), msgcode)
                    ),
                    _ => unreachable!(),
                }
            }
            _ => panic!("expected an invalid code error"),
        }
    }
}

#[test]
fn message_code_invalid_code() {
    for code in [3u64, 100, 255] {
        match from_items(vec![notice_type(), num(code), num(42)]) {
            Err(ToNoticeError::InvalidCode(NoticeCodeError::InvalidValue(cause))) => assert_eq!(
                cause.to_string(),
                format!("Expected value <= {} but got value {}", TestCode::max_number(), code)
            ),
            _ => panic!("expected an invalid code error"),
        }
    }
}

#[test]
fn notify_message_args_invalid_type() {
    let msgval = num(42);
    match from_items(vec![notice_type(), one(), msgval.clone()]) {
        Err(e @ ToNoticeError::InvalidArgs(_)) => {
            assert_eq!(e.to_string(), "Invalid notification message arguments".to_owned());
            let expected = format!(
                "Expected array for notification arguments but got {}",
                value_type(&msgval)
            );
            match e {
                ToNoticeError::InvalidArgs(cause) => assert_eq!(cause.to_string(), expected),
                _ => unreachable!(),
            }
        }
        _ => panic!("expected an invalid args error"),
    }
}

#[test]
fn notificationmessage_from_message_args_invalid_type() {
    match from_items(vec![notice_type(), one(), num(42)]) {
        Err(ToNoticeError::InvalidArgs(cause)) => assert_eq!(cause.value_type, "int"),
        _ => panic!("expected an invalid args error"),
    }
}

#[test]
fn notify_as_vec() {
    let (expected, notice) = valid_notice();
    assert_eq!(notice.as_vec(), expected.as_vec())
}

#[test]
fn notificationmessage_rpcmessage_as_vec() {
    let (expected, notice) = valid_notice();
    assert_eq!(notice.as_vec().len(), 3);
    assert_eq!(notice.as_vec(), expected.as_vec())
}

#[test]
fn notify_as_value() {
    let (expected, notice) = valid_notice();
    assert_eq!(notice.as_value(), expected.as_value())
}

#[test]
fn notificationmessage_rpcmessage_as_value() {
    let (expected, notice) = valid_notice();
    assert_eq!(notice.as_value(), expected.as_value())
}

#[test]
fn message_code() {
    let (expected, notice) = valid_notice();
    let code = expected.as_vec()[1].as_u64().unwrap() as u8;
    assert_eq!(notice.message_code(), TestCode::from_number(code).unwrap())
}

#[test]
fn notificationmessage_rpcnotice_message_code() {
    let (_, notice) = valid_notice();
    assert_eq!(notice.message_code(), TestCode::Request)
}

#[test]
fn notify_message_args() {
    let (expected, notice) = valid_notice();
    let expected = expected.as_vec()[2].as_array().unwrap();
    assert_eq!(notice.message_args(), expected)
}

#[test]
fn notificationmessage_rpcnotice_message_args() {
    let (_, notice) = valid_notice();
    assert_eq!(notice.message_args(), &vec![num(42)])
}

#[test]
fn notice_new_from_roundtrip() {
    let args = vec![Value::from_str("x")];
    let notice = Notice::new(TestCode::Response, args.clone());
    let back = Notice::from(notice.into_message()).unwrap();
    assert_eq!(back.message_code(), TestCode::Response);
    assert_eq!(back.message_args(), &args);
}
