use siminau_rpc::rpccore::new::MessageCategory as TestEnum;
use siminau_rpc::rpccore::request::RequestMessage;
use siminau_rpc::rpccore::{
    check_int, CheckIntError, CodeConvert, Message, MessageType, RpcMessage, ToMessageError,
};
use siminau_rpc::value::{value_type, Value};

fn uints(vals: &[u64]) -> Value {
    Value::from_array(vals.iter().map(|v| Value::from_u64(*v)).collect())
}

// A non-array value is always refused.
#[test]
fn non_array_always_err() {
    let v = Value::from_u64(42);
    let errmsg = format!("expected array but got {}", value_type(&v));
    let ret = match Message::from(v) {
        Err(e @ ToMessageError::NotArray(_)) => errmsg == e.to_string(),
        _ => false,
    };
    assert!(ret)
}

#[test]
fn message_from_non_array_always_err() {
    let v = Value::from_u64(42);
    let errmsg = format!("expected array but got {}", value_type(&v));
    let ret = match Message::from(v) {
        Err(e @ ToMessageError::NotArray(_)) => errmsg == e.to_string(),
        _ => false,
    };
    assert!(ret)
}

// A valid value is an array of 3 or 4 items whose first item is a u8 < 3.
#[test]
fn message_message_from_valid_value() {
    let array = uints(&[1, 42, 42]);
    let expected = array.clone();
    let ret = match Message::from(array) {
        Ok(m) => m.as_value() == &expected,
        _ => false,
    };
    assert!(ret)
}

#[test]
fn mod_message_from_valid_value() {
    let array = uints(&[1, 42, 42]);
    let expected = array.clone();
    let ret = match Message::from(array) {
        Ok(m) => m.as_value() == &expected,
        _ => false,
    };
    assert!(ret)
}

// The items of a message are the items of the array it was made from.
#[test]
fn message_message_value() {
    let v = uints(&[1, 42, 42]);
    let expected = v.clone();
    let m = Message::from(v).unwrap();
    let msg_val = m.as_vec();
    assert_eq!(msg_val, expected.as_array().unwrap());
}

#[test]
fn message_as_value() {
    let v = uints(&[2, 42, 42]);
    let expected = v.clone();
    let msg = Message::from(v).unwrap();
    assert_eq!(msg.as_value(), &expected);
}

#[test]
fn message_from_invalid_array_length() {
    for len in [0usize, 1, 2, 5, 9] {
        let vals: Vec<u64> = (0..len as u64).map(|v| v % 3).collect();
        let result = Message::from(uints(&vals));
        let errmsg = format!("expected array length of either 3 or 4, got {}", len);
        let ok = match result {
            Err(e @ ToMessageError::ArrayLength(_)) => errmsg == e.to_string(),
            _ => false,
        };
        assert!(ok);
    }
}

#[test]
fn message_from_invalid_messagetype_number() {
    for code in [3u64, 42, 255, 256, u64::MAX] {
        let result = Message::from(uints(&[code, 42, 42]));
        let cause_errmsg = format!("Expected value <= 2 but got value {}", code);
        let ok = match result {
            Err(e @ ToMessageError::InvalidType(_)) => {
                let msg_ok = e.to_string() == "Invalid message type";
                let cause_ok = match &e {
                    ToMessageError::InvalidType(cause) => cause.to_string() == cause_errmsg,
                    _ => false,
                };
                msg_ok && cause_ok
            }
            _ => false,
        };
        assert!(ok);
    }
}

#[test]
fn message_from_missing_messagetype_number() {
    let val = Value::from_array(vec![Value::from_str("x"), Value::from_u64(1), Value::from_u64(1)]);
    match Message::from(val) {
        Err(ToMessageError::InvalidType(cause)) => {
            assert_eq!(cause.to_string(), "Expected u8 but got None")
        }
        _ => panic!("expected an invalid type error"),
    }
}

#[test]
fn message_into_value_gives_back_value() {
    let v = uints(&[0, 1, 2, 3]);
    let expected = v.clone();
    assert_eq!(Message::from(v).unwrap().into_value(), expected);
}

// Message types and their numbers.
#[test]
fn messagetype_codes() {
    assert_eq!(MessageType::from_number(0).unwrap(), MessageType::Request);
    assert_eq!(MessageType::from_number(1).unwrap(), MessageType::Response);
    assert_eq!(MessageType::from_number(2).unwrap(), MessageType::Notification);
    assert_eq!(MessageType::from_u64(3).unwrap_err().code, 3);
    assert_eq!(MessageType::from_u64(3).unwrap_err().to_string(), "Unknown code value: 3");
    assert_eq!(MessageType::Notification.to_number(), 2);
    assert_eq!(MessageType::Response.to_u64(), 1);
    assert_eq!(MessageType::max_number(), 2);
    assert_eq!(MessageType::cast_number(255), Some(255u8));
    assert_eq!(MessageType::cast_number(256), None);
}

#[test]
fn messagetype_message_type_of_message() {
    for n in 0u64..3 {
        let val = Value::from_array(vec![
            Value::from_u64(n),
            Value::from_u64(0),
            Value::from_u64(0),
            Value::Nil,
        ]);
        let msg = Message::from(val).unwrap();
        assert_eq!(msg.message_type(), MessageType::from_u64(n).unwrap());
    }
}

// check_int
#[test]
fn check_int_missing_value() {
    match check_int(None, 42, String::from("u8")) {
        Err(e @ CheckIntError::MissingValue { .. }) => {
            assert_eq!(e.to_string(), "Expected u8 but got None")
        }
        _ => panic!("expected a missing value error"),
    }
}

#[test]
fn check_int_value_too_big() {
    match check_int(Some(43), 42, String::from("u8")) {
        Err(e @ CheckIntError::ValueTooBig { .. }) => {
            assert_eq!(e.to_string(), "Expected value <= 42 but got value 43")
        }
        _ => panic!("expected a value too big error"),
    }
}

#[test]
fn check_int_value_ok() {
    assert_eq!(check_int(Some(42), 42, String::from("u8")).unwrap(), 42);
    assert_eq!(check_int(Some(0), 0, String::from("u8")).unwrap(), 0);
}

#[test]
fn rpcmessage_as_vec() {
    let msgtype = Value::from_u64(MessageType::Request.to_number() as u64);
    let msgid = Value::from_u64(42);
    let msgmeth = Value::from_u64(TestEnum::Request.to_number() as u64);
    let msgval = Value::from_array(vec![Value::from_u64(42)]);
    let val = Value::from_array(vec![msgtype, msgid, msgmeth, msgval]);
    let msg = Message::from(val).unwrap();
    let expected = msg.clone();
    let req: RequestMessage<TestEnum> = RequestMessage::from(msg).unwrap();
    let result = req.as_vec();
    let expected = expected.as_vec();
    assert_eq!(result, expected)
}

#[test]
fn rpcmessage_as_value() {
    let msgtype = Value::from_u64(MessageType::Request.to_number() as u64);
    let msgid = Value::from_u64(42);
    let msgmeth = Value::from_u64(TestEnum::Request.to_number() as u64);
    let msgval = Value::from_array(vec![Value::from_u64(42)]);
    let val = Value::from_array(vec![msgtype, msgid, msgmeth, msgval]);
    let msg = Message::from(val).unwrap();
    let expected = msg.clone();
    let req: RequestMessage<TestEnum> = RequestMessage::from(msg).unwrap();
    let result = req.as_value();
    let expected = expected.as_value();
    assert_eq!(result, expected)
}

#[test]
fn value_type_names() {
    let values = vec![
        (Value::Nil, "nil"),
        (Value::Boolean(true), "bool"),
        (Value::from_u64(42), "int"),
        (Value::F32(0), "float32"),
        (Value::F64(0), "float64"),
        (Value::from_str("hello"), "str"),
        (Value::from_binary(vec![0, 0]), "bytearray"),
        (Value::from_array(vec![Value::from_u64(42)]), "array"),
        (Value::MapEntries(vec![(Value::from_u64(42), Value::from_str("ANSWER"))]), "map"),
        (Value::Ext(-42, vec![0, 1, 2]), "ext"),
    ];
    for (v, name) in values.iter() {
        assert_eq!(value_type(v), *name);
    }
}
