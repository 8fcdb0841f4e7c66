//! The MessagePack value model that messages are made of.
//!
//! `Value` mirrors the variants of a decoded MessagePack object. Floating
//! point payloads are kept as their IEEE-754 bit patterns, since the message
//! checks only ever ask which kind of value is present.

use vstd::prelude::*;

verus! {

/// An integer as MessagePack stores it: either a non-negative value or a
/// negative one.
#[derive(Debug, Clone, Copy, PartialEq, Eq, Structural)]
pub enum Integer {
    /// A non-negative integer.
    PosInt(u64),
    /// A signed integer (negative when built by `from_i64`).
    NegInt(i64),
}

/// A MessagePack string: valid UTF-8 text, or the raw bytes of an object
/// that was not valid UTF-8.
#[derive(Debug, PartialEq)]
pub enum Utf8String {
    /// Valid UTF-8 text.
    Str(String),
    /// Bytes that are not valid UTF-8.
    Invalid(Vec<u8>),
}

/// A MessagePack value.
#[derive(Debug, PartialEq)]
pub enum Value {
    Nil,
    Boolean(bool),
    Integer(Integer),
    /// A 32-bit float, by its bit pattern.
    F32(u32),
    /// A 64-bit float, by its bit pattern.
    F64(u64),
    String(Utf8String),
    Binary(Vec<u8>),
    Array(Vec<Value>),
    /// Key-value pairs (a MessagePack map).
    MapEntries(Vec<(Value, Value)>),
    Ext(i8, Vec<u8>),
}

impl Integer {
    /// The integer as an unsigned 64-bit value, when it is one.
    pub open spec fn spec_as_u64(self) -> Option<u64> {
        match self {
            Integer::PosInt(n) => Some(n),
            Integer::NegInt(n) => if n >= 0 { Some(n as u64) } else { None },
        }
    }

    /// The integer as a signed 64-bit value, when it is one.
    pub open spec fn spec_as_i64(self) -> Option<i64> {
        match self {
            Integer::PosInt(n) => if n <= i64::MAX { Some(n as i64) } else { None },
            Integer::NegInt(n) => Some(n),
        }
    }

    /// Builds an integer from an unsigned value.
    pub fn from_u64(n: u64) -> (r: Integer)
        ensures
            r == Integer::PosInt(n),
    {
        Integer::PosInt(n)
    }

    /// Builds an integer from a signed value: non-negative values are stored
    /// as unsigned ones.
    pub fn from_i64(n: i64) -> (r: Integer)
        ensures
            n < 0 ==> r == Integer::NegInt(n),
            n >= 0 ==> r == Integer::PosInt(n as u64),
    {
        if n < 0 {
            Integer::NegInt(n)
        } else {
            Integer::PosInt(n as u64)
        }
    }

    /// The value as an unsigned 64-bit integer, when it is one.
    pub fn as_u64(&self) -> (r: Option<u64>)
        ensures
            r == self.spec_as_u64(),
    {
        match self {
            Integer::PosInt(n) => Some(*n),
            Integer::NegInt(n) => if *n >= 0 { Some(*n as u64) } else { None },
        }
    }

    /// The value as a signed 64-bit integer, when it is one.
    pub fn as_i64(&self) -> (r: Option<i64>)
        ensures
            r == self.spec_as_i64(),
    {
        match self {
            Integer::PosInt(n) => if *n <= i64::MAX as u64 { Some(*n as i64) } else { None },
            Integer::NegInt(n) => Some(*n),
        }
    }
}

/// The mathematical form of a string object.
pub enum StrV {
    Str(Seq<char>),
    Invalid(Seq<u8>),
}

/// The mathematical form of a value: the same variants, with sequences in
/// place of vectors and strings.
pub enum ValueV {
    Nil,
    Boolean(bool),
    Integer(Integer),
    F32(u32),
    F64(u64),
    String(StrV),
    Binary(Seq<u8>),
    Array(Seq<ValueV>),
    MapEntries(Seq<(ValueV, ValueV)>),
    Ext(i8, Seq<u8>),
}

impl View for Utf8String {
    type V = StrV;

    open spec fn view(&self) -> StrV {
        match self {
            Utf8String::Str(s) => StrV::Str(s@),
            Utf8String::Invalid(b) => StrV::Invalid(b@),
        }
    }
}

/// The mathematical form of a value.
pub open spec fn value_view(v: Value) -> ValueV
    decreases v,
{
    match v {
        Value::Nil => ValueV::Nil,
        Value::Boolean(b) => ValueV::Boolean(b),
        Value::Integer(n) => ValueV::Integer(n),
        Value::F32(x) => ValueV::F32(x),
        Value::F64(x) => ValueV::F64(x),
        Value::String(s) => ValueV::String(s@),
        Value::Binary(b) => ValueV::Binary(b@),
        Value::Array(items) => ValueV::Array(
            Seq::new(
                items@.len(),
                |i: int| if 0 <= i < items@.len() { value_view(items[i]) } else { ValueV::Nil },
            ),
        ),
        Value::MapEntries(pairs) => ValueV::MapEntries(
            Seq::new(
                pairs@.len(),
                |i: int|
                    if 0 <= i < pairs@.len() {
                        (value_view(pairs[i].0), value_view(pairs[i].1))
                    } else {
                        (ValueV::Nil, ValueV::Nil)
                    },
            ),
        ),
        Value::Ext(t, b) => ValueV::Ext(t, b@),
    }
}

impl View for Value {
    type V = ValueV;

    open spec fn view(&self) -> ValueV {
        value_view(*self)
    }
}

/// The mathematical form of a sequence of values.
pub open spec fn view_items(s: Seq<Value>) -> Seq<ValueV> {
    Seq::new(s.len(), |i: int| s[i]@)
}

impl ValueV {
    /// The value as an unsigned 64-bit integer, when it is one.
    pub open spec fn as_u64(self) -> Option<u64> {
        match self {
            ValueV::Integer(n) => n.spec_as_u64(),
            _ => None,
        }
    }

    /// The items of the value, when it is an array.
    pub open spec fn as_array(self) -> Option<Seq<ValueV>> {
        match self {
            ValueV::Array(a) => Some(a),
            _ => None,
        }
    }

    /// The bytes of the value, when it is binary data or a string.
    pub open spec fn as_slice(self) -> Option<Seq<u8>> {
        match self {
            ValueV::Binary(b) => Some(b),
            ValueV::String(StrV::Str(s)) => Some(vstd::utf8::encode_utf8(s)),
            ValueV::String(StrV::Invalid(b)) => Some(b),
            _ => None,
        }
    }

    /// An unsigned integer value.
    pub open spec fn uint(n: u64) -> ValueV {
        ValueV::Integer(Integer::PosInt(n))
    }

    /// A string value.
    pub open spec fn str(s: Seq<char>) -> ValueV {
        ValueV::String(StrV::Str(s))
    }
}

/// The name that error messages give the kind of a value.
pub open spec fn value_type_name(v: ValueV) -> Seq<char> {
    match v {
        ValueV::Nil => "nil"@,
        ValueV::Boolean(_) => "bool"@,
        ValueV::Integer(_) => "int"@,
        ValueV::F32(_) => "float32"@,
        ValueV::F64(_) => "float64"@,
        ValueV::String(_) => "str"@,
        ValueV::Binary(_) => "bytearray"@,
        ValueV::Array(_) => "array"@,
        ValueV::MapEntries(_) => "map"@,
        ValueV::Ext(_, _) => "ext"@,
    }
}

/// Returns the name of the kind of `arg`.
pub fn value_type(arg: &Value) -> (r: String)
    ensures
        r@ == value_type_name(arg@),
{
    let name = match arg {
        Value::Nil => "nil",
        Value::Boolean(_) => "bool",
        Value::Integer(_) => "int",
        Value::F32(_) => "float32",
        Value::F64(_) => "float64",
        Value::String(_) => "str",
        Value::Binary(_) => "bytearray",
        Value::Array(_) => "array",
        Value::MapEntries(_) => "map",
        Value::Ext(_, _) => "ext",
    };
    name.to_string()
}

impl Value {
    /// The value as an unsigned 64-bit integer, when it is one.
    pub fn as_u64(&self) -> (r: Option<u64>)
        ensures
            r == self@.as_u64(),
    {
        match self {
            Value::Integer(n) => n.as_u64(),
            _ => None,
        }
    }

    /// The items of the value, when it is an array.
    pub fn as_array(&self) -> (r: Option<&Vec<Value>>)
        ensures
            match r {
                Some(a) => self@ == ValueV::Array(view_items(a@)),
                None => self@.as_array() is None,
            },
    {
        match self {
            Value::Array(a) => {
                assert(view_items(a@) =~= self@.as_array()->0);
                Some(a)
            },
            _ => None,
        }
    }

    /// The bytes of the value, when it is binary data or a string.
    pub fn as_slice(&self) -> (r: Option<&[u8]>)
        ensures
            match r {
                Some(b) => self@.as_slice() == Some(b@),
                None => self@.as_slice() is None,
            },
    {
        match self {
            Value::Binary(b) => Some(b.as_slice()),
            Value::String(Utf8String::Str(s)) => Some(s.as_str().as_bytes()),
            Value::String(Utf8String::Invalid(b)) => Some(b.as_slice()),
            _ => None,
        }
    }

    /// Whether the value is an array.
    pub fn is_array(&self) -> (r: bool)
        ensures
            r == (self@ is Array),
    {
        match self {
            Value::Array(_) => true,
            _ => false,
        }
    }

    /// Whether the value is nil.
    pub fn is_nil(&self) -> (r: bool)
        ensures
            r == (self@ is Nil),
    {
        match self {
            Value::Nil => true,
            _ => false,
        }
    }

    /// An unsigned integer value.
    pub fn from_u64(n: u64) -> (r: Value)
        ensures
            r@ == ValueV::uint(n),
    {
        Value::Integer(Integer::PosInt(n))
    }

    /// A signed integer value.
    pub fn from_i64(n: i64) -> (r: Value)
        ensures
            r@ == ValueV::Integer(Integer::from_i64_spec(n)),
    {
        Value::Integer(Integer::from_i64(n))
    }

    /// A string value holding the characters of `s`.
    pub fn from_str(s: &str) -> (r: Value)
        ensures
            r@ == ValueV::str(s@),
    {
        Value::String(Utf8String::Str(s.to_string()))
    }

    /// A string value that takes ownership of `s`.
    pub fn from_string(s: String) -> (r: Value)
        ensures
            r@ == ValueV::str(s@),
    {
        Value::String(Utf8String::Str(s))
    }

    /// An array value.
    pub fn from_array(items: Vec<Value>) -> (r: Value)
        ensures
            r@ == ValueV::Array(view_items(items@)),
    {
        let r = Value::Array(items);
        assert(r@.as_array()->0 =~= view_items(items@));
        r
    }

    /// A binary value.
    pub fn from_binary(bytes: Vec<u8>) -> (r: Value)
        ensures
            r@ == ValueV::Binary(bytes@),
    {
        Value::Binary(bytes)
    }
}

impl Clone for Utf8String {
    fn clone(&self) -> (r: Self)
        ensures
            r@ == self@,
    {
        match self {
            Utf8String::Str(s) => Utf8String::Str(s.clone()),
            Utf8String::Invalid(b) => Utf8String::Invalid(copy_bytes(b)),
        }
    }
}

impl Clone for Value {
    fn clone(&self) -> (r: Self)
        ensures
            r@ == self@,
    {
        clone_value(self)
    }
}

/// A copy of a byte vector.
pub fn copy_bytes(b: &Vec<u8>) -> (r: Vec<u8>)
    ensures
        r@ == b@,
{
    let mut out: Vec<u8> = Vec::new();
    let mut i: usize = 0;
    while i < b.len()
        invariant
            i <= b.len(),
            out@ == b@.subrange(0, i as int),
        decreases b.len() - i,
    {
        out.push(b[i]);
        i += 1;
        assert(out@ == b@.subrange(0, i as int));
    }
    assert(b@.subrange(0, b.len() as int) == b@);
    out
}

/// A copy of a value, item by item.
pub fn clone_value(v: &Value) -> (r: Value)
    ensures
        r@ == v@,
    decreases v,
{
    match v {
        Value::Nil => Value::Nil,
        Value::Boolean(b) => Value::Boolean(*b),
        Value::Integer(n) => Value::Integer(*n),
        Value::F32(x) => Value::F32(*x),
        Value::F64(x) => Value::F64(*x),
        Value::String(s) => Value::String(s.clone()),
        Value::Binary(b) => Value::Binary(copy_bytes(b)),
        Value::Array(items) => {
            let mut out: Vec<Value> = Vec::new();
            let mut i: usize = 0;
            #[verifier::loop_isolation(false)]
            while i < items.len()
                invariant
                    i <= items.len(),
                    out@.len() == i,
                    forall|j: int| 0 <= j < i ==> (#[trigger] out@[j])@ == items@[j]@,
                decreases items.len() - i,
            {
                proof {
                    assert(decreases_to!(*items => items[i as int]));
                }
                let item = clone_value(&items[i]);
                out.push(item);
                i += 1;
            }
            let r = Value::Array(out);
            assert(r@.as_array()->0 =~= v@.as_array()->0);
            r
        },
        Value::MapEntries(pairs) => {
            let mut out: Vec<(Value, Value)> = Vec::new();
            let mut i: usize = 0;
            #[verifier::loop_isolation(false)]
            while i < pairs.len()
                invariant
                    i <= pairs.len(),
                    out@.len() == i,
                    forall|j: int| 0 <= j < i ==> (#[trigger] out@[j]).0@ == pairs@[j].0@ && out@[j].1@ == pairs@[j].1@,
                decreases pairs.len() - i,
            {
                proof {
                    assert(decreases_to!(*pairs => pairs[i as int]));
                    assert(decreases_to!(pairs[i as int] => pairs[i as int].0));
                    assert(decreases_to!(pairs[i as int] => pairs[i as int].1));
                }
                let k = clone_value(&pairs[i].0);
                let x = clone_value(&pairs[i].1);
                out.push((k, x));
                i += 1;
            }
            let r = Value::MapEntries(out);
            assert(r@ matches ValueV::MapEntries(a) && v@ matches ValueV::MapEntries(b) && a =~= b);
            r
        },
        Value::Ext(t, b) => Value::Ext(*t, copy_bytes(b)),
    }
}

impl Integer {
    /// The integer that `from_i64` builds: non-negative values are stored
    /// as unsigned ones.
    pub open spec fn from_i64_spec(n: i64) -> Integer {
        if n < 0 { Integer::NegInt(n) } else { Integer::PosInt(n as u64) }
    }
}

} // verus!
