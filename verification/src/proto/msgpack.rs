//! Reading MessagePack bytes back into messages, and the errors met there.

use vstd::prelude::*;

use rmpv::Integer as MpInteger;
use rmpv::Utf8String as MpString;
use rmpv::Value as MpValue;
use serde::Deserialize;

use crate::message::v1::request;
use crate::rpccore::notify::{notice_error, NotificationMessage, ToNoticeError, ToNoticeErrorV};
use crate::rpccore::request::{request_error, RequestMessage, ToRequestError, ToRequestErrorV};
use crate::rpccore::response::{
    response_error, ResponseMessage, ToResponseError, ToResponseErrorV,
};
use crate::rpccore::{message_error, CodeConvert, Message, ToMessageError};
use crate::value::{Integer, Utf8String, Value, ValueV};

verus! {

/// `std::io::Error`, carried through as an opaque value.
#[verifier::external_type_specification]
#[verifier::external_body]
pub struct ExIoError(std::io::Error);

/// `std::str::Utf8Error`, carried through as an opaque value.
#[verifier::external_type_specification]
#[verifier::external_body]
pub struct ExUtf8Error(std::str::Utf8Error);

/// `rmp_serde::decode::Error`, carried through as an opaque value.
#[verifier::external_type_specification]
#[verifier::external_body]
pub struct ExDecodeError(rmp_serde::decode::Error);

/// `rmpv::Value`, carried through as an opaque value.
#[verifier::external_type_specification]
#[verifier::external_body]
pub struct ExMpValue(MpValue);

/// `rmpv::Utf8String`, carried through as an opaque value.
#[verifier::external_type_specification]
#[verifier::external_body]
pub struct ExMpString(MpString);

/// `rmpv::Integer`, carried through as an opaque value.
#[verifier::external_type_specification]
#[verifier::external_body]
pub struct ExMpInteger(MpInteger);

/// Converts an `rmpv` integer, telling its two private variants apart by
/// whether it reads as a `u64` (every `rmpv` integer is a `u64` or an
/// `i64`). The integer is opaque here, so nothing is stated of the result.
#[verifier::external_body]
fn integer_of(n: MpInteger) -> (r: Integer) {
    match n.as_u64() {
        Some(u) => Integer::PosInt(u),
        None => Integer::NegInt(n.as_i64().unwrap()),
    }
}

/// Converts an `rmpv` string, telling its valid UTF-8 text from its raw
/// bytes. The string is opaque here, so nothing is stated of the result.
#[verifier::external_body]
fn utf8_string_of(s: MpString) -> (r: Utf8String) {
    if s.is_str() {
        Utf8String::Str(s.into_str().unwrap())
    } else {
        Utf8String::Invalid(s.into_bytes())
    }
}

/// Converts an `rmpv` value one for one, a float by its bit pattern. The
/// value is opaque here, so nothing is stated of the result.
#[verifier::external_body]
fn value_of(v: MpValue) -> (r: Value) {
    match v {
        MpValue::Nil => Value::Nil,
        MpValue::Boolean(b) => Value::Boolean(b),
        MpValue::Integer(n) => Value::Integer(integer_of(n)),
        MpValue::F32(f) => Value::F32(f.to_bits()),
        MpValue::F64(f) => Value::F64(f.to_bits()),
        MpValue::String(s) => Value::String(utf8_string_of(s)),
        MpValue::Binary(b) => Value::Binary(b),
        MpValue::Array(a) => Value::Array(a.into_iter().map(value_of).collect()),
        MpValue::Map(m) => Value::MapEntries(m.into_iter().map(pair_of).collect()),
        MpValue::Ext(t, d) => Value::Ext(t, d),
    }
}

/// Converts a key and value pair of an `rmpv` map one for one. The pair is
/// opaque here, so nothing is stated of the result.
#[verifier::external_body]
fn pair_of(kv: (MpValue, MpValue)) -> (r: (Value, Value)) {
    (value_of(kv.0), value_of(kv.1))
}

/// What `rmp_serde` reads as an `rmpv` value from the front of some bytes,
/// converted to a library value, and the number of bytes it read.
pub uninterp spec fn decoded_front_of(bytes: Seq<u8>) -> (Result<Value, rmp_serde::decode::Error>, usize);

/// Deserializes an `rmpv::Value` with `rmp_serde` from the front of
/// `bytes` and reports how many bytes the reader took: the name
/// `decoded_front_of` of the bytes. The reader never reads past the end, so
/// the count is at most the length.
#[verifier::external_body]
fn decode_front(bytes: &[u8]) -> (r: (Result<Value, rmp_serde::decode::Error>, usize))
    ensures
        r == decoded_front_of(bytes@),
        r.1 <= bytes@.len(),
{
    let mut de = rmp_serde::Deserializer::new(std::io::Cursor::new(bytes));
    let result = MpValue::deserialize(&mut de).map(value_of);
    (result, de.position() as usize)
}

/// The variants of a MessagePack decoding error, with the fields that the
/// conversion keeps.
#[derive(Debug)]
pub enum DecodeErrorParts {
    InvalidMarkerRead(std::io::Error),
    InvalidDataRead(std::io::Error),
    TypeMismatch,
    OutOfRange,
    LengthMismatch(u32),
    Uncategorized(String),
    Syntax(String),
    Utf8Error(std::str::Utf8Error),
    DepthLimitExceeded,
}

/// The variant of a MessagePack decoding error, with the fields that the
/// conversion keeps.
pub uninterp spec fn decode_parts_of(e: rmp_serde::decode::Error) -> DecodeErrorParts;

/// Tells the variants of `rmp_serde::decode::Error` apart, one arm each,
/// moving each variant's fields; the marker of a type mismatch is dropped.
/// The result is the name `decode_parts_of` of the error.
#[verifier::external_body]
fn decode_error_parts(e: rmp_serde::decode::Error) -> (r: DecodeErrorParts)
    ensures
        r == decode_parts_of(e),
{
    match e {
        rmp_serde::decode::Error::InvalidMarkerRead(err) => DecodeErrorParts::InvalidMarkerRead(err),
        rmp_serde::decode::Error::InvalidDataRead(err) => DecodeErrorParts::InvalidDataRead(err),
        rmp_serde::decode::Error::TypeMismatch(_) => DecodeErrorParts::TypeMismatch,
        rmp_serde::decode::Error::OutOfRange => DecodeErrorParts::OutOfRange,
        rmp_serde::decode::Error::LengthMismatch(v) => DecodeErrorParts::LengthMismatch(v),
        rmp_serde::decode::Error::Uncategorized(v) => DecodeErrorParts::Uncategorized(v),
        rmp_serde::decode::Error::Syntax(v) => DecodeErrorParts::Syntax(v),
        rmp_serde::decode::Error::Utf8Error(err) => DecodeErrorParts::Utf8Error(err),
        rmp_serde::decode::Error::DepthLimitExceeded => DecodeErrorParts::DepthLimitExceeded,
    }
}

/// The index up to which the input of a UTF-8 error was valid UTF-8.
pub uninterp spec fn valid_up_to_of(e: std::str::Utf8Error) -> usize;

/// `std::str::Utf8Error::valid_up_to`: the index up to which the input was
/// valid UTF-8, which is the name `valid_up_to_of` of the error.
#[verifier::external_body]
fn utf8_valid_up_to(e: &std::str::Utf8Error) -> (r: usize)
    ensures
        r == valid_up_to_of(*e),
{
    e.valid_up_to()
}

/// Whether the kind of an I/O error is `UnexpectedEof`: the input ended
/// early.
pub uninterp spec fn is_eof_of(e: std::io::Error) -> bool;

/// `std::io::Error::kind`, compared with `UnexpectedEof`: whether the I/O
/// error says the input ended early, which is the name `is_eof_of` of the
/// error.
#[verifier::external_body]
fn io_error_is_eof(e: &std::io::Error) -> (r: bool)
    ensures
        r == is_eof_of(*e),
{
    e.kind() == std::io::ErrorKind::UnexpectedEof
}

/// Why bytes could not be read back into a message.
#[derive(Debug)]
pub enum FromBytesError<E> {
    /// An I/O error occurred while reading a MessagePack marker.
    InvalidMarkerRead(std::io::Error),
    /// An I/O error occurred while reading MessagePack data.
    InvalidDataRead(std::io::Error),
    /// The decoded and the expected value types differ.
    TypeMismatch,
    /// A numeric cast failed because the number is out of range.
    OutOfRange,
    /// A decoded array did not have the expected length.
    LengthMismatch(u32),
    /// Some other error, with its details.
    Uncategorized(String),
    /// A general error while deserializing the expected type.
    Syntax(String),
    /// A string was not valid UTF-8 after the given number of bytes.
    Utf8Error(usize),
    /// The depth limit was exceeded.
    DepthLimitExceeded,
    /// The decoded value is not a valid message.
    InvalidMessage(E),
}

/// The error that a decoding error becomes: every variant keeps its
/// fields, and a UTF-8 error keeps the index up to which the input was
/// valid.
pub open spec fn from_parts_spec<E>(parts: DecodeErrorParts, r: FromBytesError<E>) -> bool {
    match parts {
        DecodeErrorParts::InvalidMarkerRead(err) => r == FromBytesError::<E>::InvalidMarkerRead(err),
        DecodeErrorParts::InvalidDataRead(err) => r == FromBytesError::<E>::InvalidDataRead(err),
        DecodeErrorParts::TypeMismatch => r == FromBytesError::<E>::TypeMismatch,
        DecodeErrorParts::OutOfRange => r == FromBytesError::<E>::OutOfRange,
        DecodeErrorParts::LengthMismatch(v) => r == FromBytesError::<E>::LengthMismatch(v),
        DecodeErrorParts::Uncategorized(v) => r == FromBytesError::<E>::Uncategorized(v),
        DecodeErrorParts::Syntax(v) => r == FromBytesError::<E>::Syntax(v),
        DecodeErrorParts::Utf8Error(err) => r == FromBytesError::<E>::Utf8Error(valid_up_to_of(err)),
        DecodeErrorParts::DepthLimitExceeded => r == FromBytesError::<E>::DepthLimitExceeded,
    }
}

impl<E> FromBytesError<E> {
    /// The error that the parts of a decoding error become: each variant
    /// keeps its fields, a type mismatch loses its marker, and a UTF-8 error
    /// keeps the index up to which the input was valid.
    pub fn from_parts(parts: DecodeErrorParts) -> (r: FromBytesError<E>)
        ensures
            from_parts_spec(parts, r),
    {
        match parts {
            DecodeErrorParts::InvalidMarkerRead(err) => FromBytesError::InvalidMarkerRead(err),
            DecodeErrorParts::InvalidDataRead(err) => FromBytesError::InvalidDataRead(err),
            DecodeErrorParts::TypeMismatch => FromBytesError::TypeMismatch,
            DecodeErrorParts::OutOfRange => FromBytesError::OutOfRange,
            DecodeErrorParts::LengthMismatch(v) => FromBytesError::LengthMismatch(v),
            DecodeErrorParts::Uncategorized(v) => FromBytesError::Uncategorized(v),
            DecodeErrorParts::Syntax(v) => FromBytesError::Syntax(v),
            DecodeErrorParts::Utf8Error(err) => {
                let invalid_byte = utf8_valid_up_to(&err);
                FromBytesError::Utf8Error(invalid_byte)
            },
            DecodeErrorParts::DepthLimitExceeded => FromBytesError::DepthLimitExceeded,
        }
    }

    /// The error that a MessagePack decoding error becomes: the variant of
    /// the same name with the same fields, a type mismatch without its
    /// marker, and a UTF-8 error as the index up to which the input was
    /// valid.
    pub fn from(e: rmp_serde::decode::Error) -> (r: FromBytesError<E>)
        ensures
            from_parts_spec(decode_parts_of(e), r),
            !(r is InvalidMessage),
    {
        let parts = decode_error_parts(e);
        Self::from_parts(parts)
    }
}

/// The value that decoding the front of a buffer gave: `decoded` is `None`
/// when the buffer held no bytes.
///
/// No bytes, or bytes that end inside a value's data, give `None`: the value
/// is not complete yet. Any other decoding error gives the error it
/// becomes.
pub fn value_from_decoded<E>(decoded: Option<Result<Value, rmp_serde::decode::Error>>) -> (r: Result<
    Option<Value>,
    FromBytesError<E>,
>)
    ensures
        match decoded {
            None => r matches Ok(None),
            Some(Ok(v)) => r == Ok::<Option<Value>, FromBytesError<E>>(Some(v)),
            Some(Err(e)) => error_outcome(e, r),
        },
{
    match decoded {
        None => Ok(None),
        Some(Ok(v)) => Ok(Some(v)),
        Some(Err(e)) => {
            let parts = decode_error_parts(e);
            let incomplete = match &parts {
                DecodeErrorParts::InvalidDataRead(err) => io_error_is_eof(err),
                _ => false,
            };
            if incomplete {
                Ok(None)
            } else {
                Err(FromBytesError::from_parts(parts))
            }
        },
    }
}

/// What a decoding error gives a reader: `None` when the bytes ended inside
/// a value's data (the value is not complete yet), else the error it
/// becomes.
pub open spec fn error_outcome<T, E>(e: rmp_serde::decode::Error, r: Result<Option<T>, FromBytesError<E>>) -> bool {
    match decode_parts_of(e) {
        DecodeErrorParts::InvalidDataRead(x) if is_eof_of(x) => r matches Ok(None),
        parts => match r {
            Err(f) => from_parts_spec(parts, f),
            Ok(_) => false,
        },
    }
}

/// What reading a message from a decoded value can end in.
pub open spec fn read_outcome<T, E>(
    decoded: Option<Result<Value, rmp_serde::decode::Error>>,
    r: Result<Option<T>, FromBytesError<E>>,
    accepted: spec_fn(ValueV, T) -> bool,
    refused: spec_fn(ValueV, E) -> bool,
) -> bool {
    match decoded {
        None => r matches Ok(None),
        Some(Ok(v)) => match r {
            Ok(Some(m)) => accepted(v@, m),
            Err(FromBytesError::InvalidMessage(e)) => refused(v@, e),
            _ => false,
        },
        Some(Err(e)) => error_outcome(e, r),
    }
}

/// Reads a message from what decoding the front of a buffer gave: `None`
/// when the buffer held no bytes.
///
/// No bytes, or bytes that end inside a value's data, give `None`: the
/// message is not complete yet. A decoded value gives the message it is, or
/// `InvalidMessage` when it is not one; any other decoding error gives the
/// error it becomes.
pub fn message_from_decoded(decoded: Option<Result<Value, rmp_serde::decode::Error>>) -> (r: Result<
    Option<Message>,
    FromBytesError<ToMessageError>,
>)
    ensures
        read_outcome(
            decoded,
            r,
            |v: ValueV, m: Message| m@ == v && message_error(v) is None,
            |v: ValueV, e: ToMessageError| message_error(v) == Some(e@),
        ),
{
    match value_from_decoded(decoded) {
        Ok(Some(v)) => match Message::from(v) {
            Ok(m) => Ok(Some(m)),
            Err(e) => Err(FromBytesError::InvalidMessage(e)),
        },
        Ok(None) => Ok(None),
        Err(e) => Err(e),
    }
}

/// Reads a request from what decoding the front of a buffer gave, as
/// [`message_from_decoded`] reads a message; a value that is no message, or
/// a message that is no request, gives `InvalidMessage`.
pub fn request_from_decoded<C: CodeConvert>(
    decoded: Option<Result<Value, rmp_serde::decode::Error>>,
) -> (r: Result<Option<RequestMessage<C>>, FromBytesError<ToRequestError>>)
    ensures
        read_outcome(
            decoded,
            r,
            |v: ValueV, m: RequestMessage<C>| m@ == v && message_error(v) is None
                && request_error::<C>(v) is None,
            |v: ValueV, e: ToRequestError|
                match message_error(v) {
                    Some(me) => e@ == ToRequestErrorV::MessageError(me),
                    None => request_error::<C>(v) == Some(e@),
                },
        ),
{
    match value_from_decoded(decoded) {
        Ok(Some(v)) => match Message::from(v) {
            Ok(m) => match RequestMessage::from(m) {
                Ok(req) => Ok(Some(req)),
                Err(e) => Err(FromBytesError::InvalidMessage(e)),
            },
            Err(e) => Err(FromBytesError::InvalidMessage(ToRequestError::from_message_error(e))),
        },
        Ok(None) => Ok(None),
        Err(e) => Err(e),
    }
}

/// Reads a response from what decoding the front of a buffer gave, as
/// [`message_from_decoded`] reads a message; a value that is no message, or
/// a message that is no response, gives `InvalidMessage`.
pub fn response_from_decoded<C: CodeConvert>(
    decoded: Option<Result<Value, rmp_serde::decode::Error>>,
) -> (r: Result<Option<ResponseMessage<C>>, FromBytesError<ToResponseError>>)
    ensures
        read_outcome(
            decoded,
            r,
            |v: ValueV, m: ResponseMessage<C>| m@ == v && message_error(v) is None
                && response_error::<C>(v) is None,
            |v: ValueV, e: ToResponseError|
                match message_error(v) {
                    Some(me) => e@ == ToResponseErrorV::MessageError(me),
                    None => response_error::<C>(v) == Some(e@),
                },
        ),
{
    match value_from_decoded(decoded) {
        Ok(Some(v)) => match Message::from(v) {
            Ok(m) => match ResponseMessage::from(m) {
                Ok(resp) => Ok(Some(resp)),
                Err(e) => Err(FromBytesError::InvalidMessage(e)),
            },
            Err(e) => Err(FromBytesError::InvalidMessage(ToResponseError::from_message_error(e))),
        },
        Ok(None) => Ok(None),
        Err(e) => Err(e),
    }
}

/// Reads a notification from what decoding the front of a buffer gave, as
/// [`message_from_decoded`] reads a message; a value that is no message, or
/// a message that is no notification, gives `InvalidMessage`.
pub fn notice_from_decoded<C: CodeConvert>(
    decoded: Option<Result<Value, rmp_serde::decode::Error>>,
) -> (r: Result<Option<NotificationMessage<C>>, FromBytesError<ToNoticeError>>)
    ensures
        read_outcome(
            decoded,
            r,
            |v: ValueV, m: NotificationMessage<C>| m@ == v && message_error(v) is None
                && notice_error::<C>(v) is None,
            |v: ValueV, e: ToNoticeError|
                match message_error(v) {
                    Some(me) => e@ == ToNoticeErrorV::MessageError(me),
                    None => notice_error::<C>(v) == Some(e@),
                },
        ),
{
    match value_from_decoded(decoded) {
        Ok(Some(v)) => match Message::from(v) {
            Ok(m) => match NotificationMessage::from(m) {
                Ok(n) => Ok(Some(n)),
                Err(e) => Err(FromBytesError::InvalidMessage(e)),
            },
            Err(e) => Err(FromBytesError::InvalidMessage(ToNoticeError::from_message_error(e))),
        },
        Ok(None) => Ok(None),
        Err(e) => Err(e),
    }
}

/// What decoding the front of a buffer gives: nothing for no bytes, else
/// the decoded value or the decoding error.
pub open spec fn front_of(bytes: Seq<u8>) -> Option<Result<Value, rmp_serde::decode::Error>> {
    if bytes.len() == 0 {
        None
    } else {
        Some(decoded_front_of(bytes).0)
    }
}

/// What stays of a buffer after its front was read: the bytes after a
/// decoded value, else all of it.
pub open spec fn rest_of(bytes: Seq<u8>) -> Seq<u8> {
    if bytes.len() > 0 && decoded_front_of(bytes).0 is Ok {
        bytes.subrange(decoded_front_of(bytes).1 as int, bytes.len() as int)
    } else {
        bytes
    }
}

// Decodes the value at the front of `buf`, removing its bytes when a value
// was read.
fn read_front(buf: &mut Vec<u8>) -> (r: Option<Result<Value, rmp_serde::decode::Error>>)
    ensures
        r == front_of(old(buf)@),
        final(buf)@ == rest_of(old(buf)@),
{
    if buf.len() == 0 {
        return None;
    }
    let (result, pos) = decode_front(buf.as_slice());
    if result.is_ok() {
        let mut rest: Vec<u8> = Vec::new();
        let mut i: usize = pos;
        while i < buf.len()
            invariant
                pos <= i <= buf@.len(),
                rest@ == buf@.subrange(pos as int, i as int),
            decreases buf@.len() - i,
        {
            rest.push(buf[i]);
            i = i + 1;
        }
        *buf = rest;
    }
    Some(result)
}

/// Reads the value at the front of `buf`, removing its bytes.
///
/// No bytes, or bytes that end inside a value's data, give `None` and stay
/// in `buf`; any other decoding error gives the error it becomes.
pub fn value_from_bytes<E>(buf: &mut Vec<u8>) -> (r: Result<Option<Value>, FromBytesError<E>>)
    ensures
        final(buf)@ == rest_of(old(buf)@),
        match front_of(old(buf)@) {
            None => r matches Ok(None),
            Some(Ok(v)) => r == Ok::<Option<Value>, FromBytesError<E>>(Some(v)),
            Some(Err(e)) => error_outcome(e, r),
        },
{
    let decoded = read_front(buf);
    value_from_decoded(decoded)
}

/// Reads one message from the front of `buf`, removing its bytes.
///
/// No bytes, or bytes that end inside a value's data, give `None` and stay
/// in `buf`. A decoded value gives the message it is, or `InvalidMessage`
/// when it is not one; any other decoding error gives the error it becomes.
pub fn message_from_bytes(buf: &mut Vec<u8>) -> (r: Result<
    Option<Message>,
    FromBytesError<ToMessageError>,
>)
    ensures
        final(buf)@ == rest_of(old(buf)@),
        read_outcome(
            front_of(old(buf)@),
            r,
            |v: ValueV, m: Message| m@ == v && message_error(v) is None,
            |v: ValueV, e: ToMessageError| message_error(v) == Some(e@),
        ),
{
    let decoded = read_front(buf);
    message_from_decoded(decoded)
}

/// Reads one request from the front of `buf`, as [`message_from_bytes`]
/// reads a message; a value that is no message, or a message that is no
/// request, gives `InvalidMessage`.
pub fn request_from_bytes<C: CodeConvert>(buf: &mut Vec<u8>) -> (r: Result<
    Option<RequestMessage<C>>,
    FromBytesError<ToRequestError>,
>)
    ensures
        final(buf)@ == rest_of(old(buf)@),
        read_outcome(
            front_of(old(buf)@),
            r,
            |v: ValueV, m: RequestMessage<C>| m@ == v && message_error(v) is None
                && request_error::<C>(v) is None,
            |v: ValueV, e: ToRequestError|
                match message_error(v) {
                    Some(me) => e@ == ToRequestErrorV::MessageError(me),
                    None => request_error::<C>(v) == Some(e@),
                },
        ),
{
    let decoded = read_front(buf);
    request_from_decoded(decoded)
}

/// Reads one response from the front of `buf`, as [`message_from_bytes`]
/// reads a message; a value that is no message, or a message that is no
/// response, gives `InvalidMessage`.
pub fn response_from_bytes<C: CodeConvert>(buf: &mut Vec<u8>) -> (r: Result<
    Option<ResponseMessage<C>>,
    FromBytesError<ToResponseError>,
>)
    ensures
        final(buf)@ == rest_of(old(buf)@),
        read_outcome(
            front_of(old(buf)@),
            r,
            |v: ValueV, m: ResponseMessage<C>| m@ == v && message_error(v) is None
                && response_error::<C>(v) is None,
            |v: ValueV, e: ToResponseError|
                match message_error(v) {
                    Some(me) => e@ == ToResponseErrorV::MessageError(me),
                    None => response_error::<C>(v) == Some(e@),
                },
        ),
{
    let decoded = read_front(buf);
    response_from_decoded(decoded)
}

/// Reads one notification from the front of `buf`, as
/// [`message_from_bytes`] reads a message; a value that is no message, or a
/// message that is no notification, gives `InvalidMessage`.
pub fn notice_from_bytes<C: CodeConvert>(buf: &mut Vec<u8>) -> (r: Result<
    Option<NotificationMessage<C>>,
    FromBytesError<ToNoticeError>,
>)
    ensures
        final(buf)@ == rest_of(old(buf)@),
        read_outcome(
            front_of(old(buf)@),
            r,
            |v: ValueV, m: NotificationMessage<C>| m@ == v && message_error(v) is None
                && notice_error::<C>(v) is None,
            |v: ValueV, e: ToNoticeError|
                match message_error(v) {
                    Some(me) => e@ == ToNoticeErrorV::MessageError(me),
                    None => notice_error::<C>(v) == Some(e@),
                },
        ),
{
    let decoded = read_front(buf);
    notice_from_decoded(decoded)
}

/// The opening request of a session, as a message.
pub struct InitRequest {
    inner: request::InitRequest,
}

impl InitRequest {
    /// Wraps the plain record of an init request.
    pub fn new(inner: request::InitRequest) -> (r: InitRequest)
        ensures
            r.inner() == inner,
    {
        InitRequest { inner }
    }

    /// The plain record that the message holds.
    pub closed spec fn inner(&self) -> request::InitRequest {
        self.inner
    }

    /// The message id of the request.
    pub fn id(&self) -> (r: u32)
        ensures
            r == self.inner().id,
    {
        self.inner.id
    }

    /// The protocol version that the client speaks.
    pub fn version(&self) -> (r: u32)
        ensures
            r == self.inner().version,
    {
        self.inner.version
    }
}

} // verus!
