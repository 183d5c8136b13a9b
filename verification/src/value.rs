//! SQL values: their types, values owned by Rust code, BLOBs, and borrowed SQLite values.
use vstd::prelude::*;
use vstd::string::StringSliceAdditionalSpecFns;
use vstd::utf8::{decode_utf8, encode_utf8, valid_utf8};
use crate::codes;
use crate::engine;
use crate::text::{debug_quoted, decimal_chars, i64_to_string, int_text, quoted, u64_to_string};
use crate::types::{Error, Result, SQLITE_MISMATCH, code_error, utf8_error_debug};

verus! {

/// The fundamental datatypes of SQLite.
#[derive(Debug, Eq, PartialEq, Copy, Clone, Structural)]
pub enum ValueType {
    Integer,
    Float,
    Text,
    Blob,
    Null,
}

/// Whether a number is one of SQLite's fundamental datatype codes.
pub open spec fn is_type_code(val: i32) -> bool {
    val == codes::SQLITE_INTEGER || val == codes::SQLITE_FLOAT || val == codes::SQLITE_TEXT
        || val == codes::SQLITE_BLOB || val == codes::SQLITE_NULL
}

/// The datatype that a datatype code stands for.
pub open spec fn type_of_code(val: i32) -> ValueType {
    if val == codes::SQLITE_INTEGER {
        ValueType::Integer
    } else if val == codes::SQLITE_FLOAT {
        ValueType::Float
    } else if val == codes::SQLITE_TEXT {
        ValueType::Text
    } else if val == codes::SQLITE_BLOB {
        ValueType::Blob
    } else {
        ValueType::Null
    }
}

impl ValueType {
    /// The datatype of an SQLite datatype code.
    pub fn from_sqlite(val: i32) -> (t: ValueType)
        requires
            is_type_code(val),
        ensures
            t == type_of_code(val),
    {
        if val == codes::SQLITE_INTEGER {
            ValueType::Integer
        } else if val == codes::SQLITE_FLOAT {
            ValueType::Float
        } else if val == codes::SQLITE_TEXT {
            ValueType::Text
        } else if val == codes::SQLITE_BLOB {
            ValueType::Blob
        } else {
            ValueType::Null
        }
    }
}

/// An owned BLOB.
#[derive(Debug, Clone, PartialEq)]
pub struct Blob(Vec<u8>);

impl View for Blob {
    type V = Seq<u8>;

    closed spec fn view(&self) -> Seq<u8> {
        self.0@
    }
}

impl Blob {
    /// A BLOB holding a copy of the given bytes.
    pub fn from_slice(val: &[u8]) -> (b: Blob)
        ensures
            b@ == val@,
    {
        let mut data: Vec<u8> = Vec::new();
        let mut i: usize = 0;
        while i < val.len()
            invariant
                i <= val@.len(),
                data@ == val@.subrange(0, i as int),
            decreases val@.len() - i,
        {
            data.push(val[i]);
            i = i + 1;
        }
        Blob(data)
    }

    /// Shorten the BLOB, keeping the first `len` bytes and dropping the rest. If `len` is
    /// not below the BLOB's length, this has no effect.
    pub fn truncate(&mut self, len: usize)
        ensures
            len < old(self)@.len() ==> final(self)@ == old(self)@.subrange(0, len as int),
            len >= old(self)@.len() ==> final(self)@ == old(self)@,
    {
        if len < self.0.len() {
            self.0.truncate(len);
        }
    }

    /// The length of the BLOB.
    pub fn len(&self) -> (n: usize)
        ensures
            n == self@.len(),
    {
        self.0.len()
    }

    /// The bytes of the BLOB, taken out of it.
    pub fn into_vec(self) -> (v: Vec<u8>)
        ensures
            v@ == self@,
    {
        self.0
    }

    /// The bytes of the BLOB.
    pub fn as_slice(&self) -> (s: &[u8])
        ensures
            s@ == self@,
    {
        self.0.as_slice()
    }
}

impl<const N: usize> From<[u8; N]> for Blob {
    /// A BLOB holding the bytes of the array.
    fn from(val: [u8; N]) -> (b: Blob)
        ensures
            b@ == val@,
    {
        Blob::from_slice(val.as_slice())
    }
}

impl<const N: usize> vstd::std_specs::convert::FromSpecImpl<[u8; N]> for Blob {
    /// A BLOB is known by its bytes, which `from` states; two BLOBs with the same bytes
    /// need not be the same value here, so no single value is promised.
    open spec fn obeys_from_spec() -> bool {
        false
    }

    open spec fn from_spec(v: [u8; N]) -> Blob {
        choose|b: Blob| b@ == v@
    }
}

/// A value owned by Rust code, in one of SQLite's datatypes. A floating-point value is held
/// as the bits of its IEEE 754 binary64 representation.
#[derive(Debug, Clone, PartialEq)]
pub enum Value {
    Integer(i64),
    Float(u64),
    Text(String),
    Blob(Blob),
    Null,
}

/// The datatype of a value.
pub open spec fn type_of_value(v: Value) -> ValueType {
    match v {
        Value::Integer(_) => ValueType::Integer,
        Value::Float(_) => ValueType::Float,
        Value::Text(_) => ValueType::Text,
        Value::Blob(_) => ValueType::Blob,
        Value::Null => ValueType::Null,
    }
}

/// A value as SQLite stores it: TEXT is held as the bytes that SQLite holds, which need not be
/// UTF-8, and a FLOAT as the bits of its IEEE 754 binary64 representation together with the
/// text that SQLite gives the number (empty for a number that SQLite has not seen).
#[derive(Debug, Clone, PartialEq)]
pub enum RawValue {
    Integer(i64),
    Float(u64, Vec<u8>),
    Text(Vec<u8>),
    Blob(Vec<u8>),
    Null,
}

/// The datatype of a stored value.
pub open spec fn type_of_raw(v: RawValue) -> ValueType {
    match v {
        RawValue::Integer(_) => ValueType::Integer,
        RawValue::Float(..) => ValueType::Float,
        RawValue::Text(_) => ValueType::Text,
        RawValue::Blob(_) => ValueType::Blob,
        RawValue::Null => ValueType::Null,
    }
}

/// The integer that this library reads from a stored value: an INTEGER is itself and any
/// other datatype reads as zero.
pub open spec fn integer_of(v: RawValue) -> i64 {
    match v {
        RawValue::Integer(i) => i,
        _ => 0,
    }
}

/// The text of an integer, as the bytes of its decimal rendering.
pub open spec fn integer_bytes(i: i64) -> Seq<u8> {
    encode_utf8(int_text(i as int))
}

/// The bytes that SQLite gives for a value read as a BLOB: none for NULL, the bytes of TEXT
/// and BLOB values, the decimal text of an INTEGER, the text that SQLite gives a FLOAT.
pub open spec fn bytes_of(v: RawValue) -> Option<Seq<u8>> {
    match v {
        RawValue::Integer(i) => Some(integer_bytes(i)),
        RawValue::Float(_, t) => Some(t@),
        RawValue::Text(t) => Some(t@),
        RawValue::Blob(b) => Some(b@),
        RawValue::Null => None,
    }
}

/// The bytes of a BLOB as `Debug` lists them: each in decimal, separated by `", "`.
pub open spec fn byte_list_text(b: Seq<u8>) -> Seq<char>
    decreases b.len(),
{
    if b.len() == 0 {
        Seq::empty()
    } else if b.len() == 1 {
        int_text(b[0] as int)
    } else {
        byte_list_text(b.drop_last()) + ", "@ + int_text(b.last() as int)
    }
}

/// Append the decimal bytes of `b`, separated by `", "`, to `s`.
fn push_byte_list(s: &mut String, b: &[u8])
    ensures
        final(s)@ == old(s)@ + byte_list_text(b@),
{
    let ghost start = s@;
    let mut i: usize = 0;
    while i < b.len()
        invariant
            i <= b@.len(),
            s@ == start + byte_list_text(b@.subrange(0, i as int)),
        decreases b@.len() - i,
    {
        proof {
            reveal_strlit(", ");
        }
        if i > 0 {
            s.append(", ");
        }
        let d = i64_to_string(b[i] as i64);
        s.append(d.as_str());
        proof {
            let p = b@.subrange(0, i as int + 1);
            assert(p.drop_last() =~= b@.subrange(0, i as int));
            assert(s@ =~= start + byte_list_text(p));
        }
        i = i + 1;
    }
    proof {
        assert(b@.subrange(0, b@.len() as int) =~= b@);
    }
}

/// A value borrowed from SQLite, such as an argument of a function or a parameter of a
/// virtual table method. It holds what SQLite gave for the value, and reading it as text
/// converts it in place, as SQLite does. An argument of `VTabCursor::filter` that stands for
/// all values of an IN constraint also holds those values (see `ValueList`).
#[derive(Debug)]
pub struct ValueRef {
    value: RawValue,
    converted: Vec<u8>,
    list: Option<Vec<RawValue>>,
    subtype: u8,
}

impl ValueRef {
    /// The value that this reference holds.
    pub closed spec fn spec_value(&self) -> RawValue {
        self.value
    }

    /// The subtype that SQLite gave the value (0 for none).
    pub closed spec fn spec_subtype(&self) -> u8 {
        self.subtype
    }

    /// The values of the IN constraint that this reference stands for, if it stands for one.
    pub closed spec fn spec_list(&self) -> Option<Seq<RawValue>> {
        match self.list {
            Some(l) => Some(l@),
            None => None,
        }
    }

    /// An INTEGER also holds its decimal text, which reading it as text gives.
    #[verifier::type_invariant]
    spec fn converted_text(&self) -> bool {
        self.value matches RawValue::Integer(i) ==> self.converted@ == integer_bytes(i)
    }

    /// A reference holding the given value.
    pub fn new(value: RawValue) -> (r: ValueRef)
        ensures
            r.spec_value() == value,
            r.spec_list() is None,
            r.spec_subtype() == 0,
    {
        let converted = match &value {
            RawValue::Integer(i) => decimal_bytes(*i),
            _ => Vec::new(),
        };
        ValueRef { value, converted, list: None, subtype: 0 }
    }

    /// A reference holding the given value with the given subtype.
    pub fn with_subtype(value: RawValue, subtype: u8) -> (r: ValueRef)
        ensures
            r.spec_value() == value,
            r.spec_list() is None,
            r.spec_subtype() == subtype,
    {
        let converted = match &value {
            RawValue::Integer(i) => decimal_bytes(*i),
            _ => Vec::new(),
        };
        ValueRef { value, converted, list: None, subtype }
    }

    /// The subtype of the value (0 for none).
    pub fn subtype(&self) -> (s: u8)
        ensures
            s == self.spec_subtype(),
    {
        self.subtype
    }

    /// A reference holding the given value that stands for the given values of an IN
    /// constraint.
    pub fn with_list(value: RawValue, list: Vec<RawValue>) -> (r: ValueRef)
        ensures
            r.spec_value() == value,
            r.spec_list() == Some(list@),
    {
        let converted = match &value {
            RawValue::Integer(i) => decimal_bytes(*i),
            _ => Vec::new(),
        };
        ValueRef { value, converted, list: Some(list), subtype: 0 }
    }

    /// The values of the IN constraint that this reference stands for, if it stands for one.
    pub fn list(&self) -> (l: Option<&Vec<RawValue>>)
        ensures
            l is None <==> self.spec_list() is None,
            l matches Some(v) ==> self.spec_list() == Some(v@),
    {
        match &self.list {
            Some(l) => Some(l),
            None => None,
        }
    }

    /// The value that this reference holds.
    pub fn value(&self) -> (v: &RawValue)
        ensures
            *v == self.spec_value(),
    {
        &self.value
    }

    /// Returns the datatype of the value.
    pub fn value_type(&self) -> (t: ValueType)
        ensures
            t == type_of_raw(self.spec_value()),
    {
        match &self.value {
            RawValue::Integer(_) => ValueType::Integer,
            RawValue::Float(..) => ValueType::Float,
            RawValue::Text(_) => ValueType::Text,
            RawValue::Blob(_) => ValueType::Blob,
            RawValue::Null => ValueType::Null,
        }
    }

    /// Whether the value is SQL NULL.
    pub fn is_null(&self) -> (b: bool)
        ensures
            b == (self.spec_value() is Null),
    {
        match &self.value {
            RawValue::Null => true,
            _ => false,
        }
    }

    /// How the value is shown for debugging: the datatype and what the value holds, as
    /// `ValueRef::Integer(69420)`, `ValueRef::Text(Ok("text"))`, `ValueRef::Blob([1, 2])` or
    /// `ValueRef::Null`. TEXT that is not UTF-8 shows the error in place of the text; a FLOAT,
    /// which this library holds as the bits of its IEEE 754 binary64 representation, shows
    /// those bits in decimal.
    pub fn debug_string(&self) -> (s: String)
        ensures
            match self.spec_value() {
                RawValue::Integer(i) => s@ == "ValueRef::Integer("@ + int_text(i as int) + ")"@,
                RawValue::Float(f, _) => s@ == "ValueRef::Float(bits "@ + decimal_chars(f as nat)
                    + ")"@,
                RawValue::Text(t) => if valid_utf8(t@) {
                    s@ == "ValueRef::Text(Ok("@ + debug_quoted(decode_utf8(t@)) + "))"@
                } else {
                    exists|inner: Seq<char>|
                        s@ == "ValueRef::Text(Err(Utf8Error("@ + inner + ")))"@
                },
                RawValue::Blob(b) => s@ == "ValueRef::Blob(["@ + byte_list_text(b@) + "])"@,
                RawValue::Null => s@ == "ValueRef::Null"@,
            },
    {
        proof {
            reveal_strlit("ValueRef::Integer(");
            reveal_strlit("ValueRef::Float(bits ");
            reveal_strlit("ValueRef::Text(Ok(");
            reveal_strlit("ValueRef::Text(Err(Utf8Error(");
            reveal_strlit("ValueRef::Blob([");
            reveal_strlit("ValueRef::Null");
            reveal_strlit(")");
            reveal_strlit("))");
            reveal_strlit(")))");
            reveal_strlit("])");
        }
        match &self.value {
            RawValue::Integer(i) => {
                let mut s = String::from_str("ValueRef::Integer(");
                let d = i64_to_string(*i);
                s.append(d.as_str());
                s.append(")");
                s
            },
            RawValue::Float(f, _) => {
                let mut s = String::from_str("ValueRef::Float(bits ");
                let d = u64_to_string(*f);
                s.append(d.as_str());
                s.append(")");
                s
            },
            RawValue::Text(t) => match engine::str_from_utf8(t.as_slice()) {
                Ok(text) => {
                    proof {
                        vstd::utf8::encode_utf8_decode_utf8(text@);
                    }
                    let mut s = String::from_str("ValueRef::Text(Ok(");
                    let q = quoted(text);
                    s.append(q.as_str());
                    s.append("))");
                    s
                },
                Err(e) => {
                    let mut s = String::from_str("ValueRef::Text(Err(Utf8Error(");
                    let d = utf8_error_debug(&e);
                    s.append(d.as_str());
                    s.append(")))");
                    proof {
                        assert(s@ =~= "ValueRef::Text(Err(Utf8Error("@ + d@ + ")))"@);
                    }
                    s
                },
            },
            RawValue::Blob(b) => {
                let mut s = String::from_str("ValueRef::Blob([");
                push_byte_list(&mut s, b.as_slice());
                s.append("])");
                s
            },
            RawValue::Null => String::from_str("ValueRef::Null"),
        }
    }

    /// Interpret this value as an integer.
    pub fn get_i64(&self) -> (i: i64)
        ensures
            i == integer_of(self.spec_value()),
    {
        match &self.value {
            RawValue::Integer(i) => *i,
            _ => 0,
        }
    }

    /// Interpret this value as an `i32`: the integer, cut to 32 bits as C's `int` is.
    pub fn get_i32(&self) -> (i: i32)
        ensures
            i == integer_of(self.spec_value()) as i32,
    {
        #[verifier::truncate]
        (self.get_i64() as i32)
    }

    /// A copy of the value, owned by Rust. TEXT that is not UTF-8 fails with `Utf8Error`.
    pub fn to_owned(&self) -> (r: Result<Value>)
        ensures
            match self.spec_value() {
                RawValue::Integer(i) => r == Ok::<Value, Error>(Value::Integer(i)),
                RawValue::Float(f, _) => r == Ok::<Value, Error>(Value::Float(f)),
                RawValue::Text(t) => {
                    &&& (r is Ok <==> valid_utf8(t@))
                    &&& (r matches Ok(v) ==> v matches Value::Text(s) && encode_utf8(s@) == t@)
                    &&& (r matches Err(e) ==> e is Utf8Error)
                },
                RawValue::Blob(b) => r matches Ok(v) && v matches Value::Blob(x) && x@ == b@,
                RawValue::Null => r == Ok::<Value, Error>(Value::Null),
            },
    {
        match &self.value {
            RawValue::Integer(i) => Ok(Value::Integer(*i)),
            RawValue::Float(f, _) => Ok(Value::Float(*f)),
            RawValue::Text(t) => match engine::str_from_utf8(t.as_slice()) {
                Ok(s) => {
                    let owned = String::from_str(s);
                    Ok(Value::Text(owned))
                },
                Err(e) => Err(Error::Utf8Error(e)),
            },
            RawValue::Blob(b) => Ok(Value::Blob(Blob::from_slice(b.as_slice()))),
            RawValue::Null => Ok(Value::Null),
        }
    }

    /// Interpret this value as a BLOB: the bytes that SQLite gives for it, the text of a
    /// number included. NULL gives `None`.
    pub fn get_blob(&self) -> (r: Result<Option<&[u8]>>)
        ensures
            r matches Ok(o) && (match o {
                Some(b) => bytes_of(self.spec_value()) == Some(b@),
                None => self.spec_value() is Null,
            }),
    {
        proof { use_type_invariant(self); }
        match &self.value {
            RawValue::Float(_, t) => Ok(Some(t.as_slice())),
            RawValue::Null => Ok(None),
            RawValue::Text(t) => Ok(Some(t.as_slice())),
            RawValue::Blob(b) => Ok(Some(b.as_slice())),
            RawValue::Integer(_) => Ok(Some(self.converted.as_slice())),
        }
    }

    /// Interpret this value as text: the text that SQLite gives for it, that of a number
    /// included. NULL gives `None`; bytes that are not UTF-8 fail with `Utf8Error`.
    pub fn get_str(&self) -> (r: Result<Option<&str>>)
        ensures
            self.spec_value() is Null ==> r == Ok::<Option<&str>, Error>(None),
            !(self.spec_value() is Null) ==> {
                let bytes = bytes_of(self.spec_value())->0;
                &&& (r is Ok <==> valid_utf8(bytes))
                &&& (r matches Ok(o) ==> o matches Some(t) && t.spec_bytes() == bytes)
                &&& (r matches Err(e) ==> e is Utf8Error)
            },
    {
        match self.get_blob() {
            Err(e) => Err(e),
            Ok(None) => Ok(None),
            Ok(Some(bytes)) => match engine::str_from_utf8(bytes) {
                Ok(t) => Ok(Some(t)),
                Err(e) => Err(Error::Utf8Error(e)),
            },
        }
    }
}

/// The SQLite version from which values carry subtypes.
pub const SUBTYPE_VERSION: i32 = 3_009_000;

/// The bytes of a pointer passed through SQLite as a BLOB, as `UnsafePtr` reads them: SQL
/// NULL is the null pointer (`None`); any other value of another length than `width` (an
/// empty one included), or (from SQLite 3.9.0) of another subtype, fails with
/// `SQLITE_MISMATCH`. The bytes of a value are those SQLite gives when reading it as a BLOB.
pub fn pointer_bytes(val: &ValueRef, width: usize, subtype: u8, version: i32) -> (r: Result<Option<Vec<u8>>>)
    ensures
        val.spec_value() is Null ==> r == Ok::<Option<Vec<u8>>, Error>(None),
        !(val.spec_value() is Null) ==> {
            let bytes = bytes_of(val.spec_value())->0;
            let subtype_ok = version < SUBTYPE_VERSION || val.spec_subtype() == subtype;
            &&& (bytes.len() != width || !subtype_ok) ==> r == Err::<
                Option<Vec<u8>>,
                Error,
            >(code_error(codes::SQLITE_MISMATCH))
            &&& bytes.len() == width && subtype_ok ==> (r matches Ok(Some(v)) && v@ == bytes)
        },
{
    let bytes: &[u8] = match val.get_blob() {
        Err(e) => return Err(e),
        Ok(None) => return Ok(None),
        Ok(Some(b)) => b,
    };
    let subtype_ok = version < SUBTYPE_VERSION || val.subtype() == subtype;
    if bytes.len() != width || !subtype_ok {
        return Err(SQLITE_MISMATCH());
    }
    let mut out: Vec<u8> = Vec::new();
    let mut i: usize = 0;
    while i < bytes.len()
        invariant
            i <= bytes@.len(),
            out@ == bytes@.subrange(0, i as int),
        decreases bytes@.len() - i,
    {
        out.push(bytes[i]);
        i = i + 1;
    }
    Ok(Some(out))
}

/// The decimal text of an integer, as bytes.
pub fn decimal_bytes(i: i64) -> (b: Vec<u8>)
    ensures
        b@ == integer_bytes(i),
{
    let text = i64_to_string(i);
    let bytes = text.as_str().as_bytes();
    let mut copy: Vec<u8> = Vec::new();
    let mut k: usize = 0;
    while k < bytes.len()
        invariant
            k <= bytes@.len(),
            copy@ == bytes@.subrange(0, k as int),
        decreases bytes@.len() - k,
    {
        copy.push(bytes[k]);
        k = k + 1;
    }
    copy
}

} // verus!
