//! What a call of an application-defined function hands back to SQLite.
use vstd::prelude::*;
use vstd::utf8::encode_utf8;
use crate::types::{message_text, Error, Result};
use crate::value::{Blob, RawValue, Value, ValueRef};

verus! {

/// The result of a call of an application-defined function, as SQLite receives it.
pub enum FunctionResult {
    /// A value, set with `sqlite3_result_int64`, `_double`, `_text`, `_blob`, `_null` or
    /// `_value`.
    Value(RawValue),
    /// A value with a subtype, set with `sqlite3_result_subtype` after the value (from
    /// SQLite 3.9.0; before, the subtype is dropped).
    Subtyped(RawValue, u8),
    /// An error with a message, set with `sqlite3_result_error`.
    Error(String),
    /// An error with a result code and SQLite's own message, set with
    /// `sqlite3_result_error_code`.
    ErrorCode(i32),
    /// Nothing is set: the column is unchanged by the UPDATE.
    Unchanged,
}

/// Two stored values are the same: the same datatype and the same contents.
pub open spec fn raw_eq(a: RawValue, b: RawValue) -> bool {
    match (a, b) {
        (RawValue::Integer(x), RawValue::Integer(y)) => x == y,
        (RawValue::Float(x, s), RawValue::Float(y, t)) => x == y && s@ == t@,
        (RawValue::Text(x), RawValue::Text(y)) => x@ == y@,
        (RawValue::Blob(x), RawValue::Blob(y)) => x@ == y@,
        (RawValue::Null, RawValue::Null) => true,
        _ => false,
    }
}

/// The result is the given stored value.
pub open spec fn is_value(r: FunctionResult, v: RawValue) -> bool {
    r matches FunctionResult::Value(x) && raw_eq(x, v)
}

/// The result is a TEXT value with the given bytes.
pub open spec fn is_text(r: FunctionResult, bytes: Seq<u8>) -> bool {
    r matches FunctionResult::Value(RawValue::Text(t)) && t@ == bytes
}

/// The result is a BLOB value with the given bytes.
pub open spec fn is_blob(r: FunctionResult, bytes: Seq<u8>) -> bool {
    r matches FunctionResult::Value(RawValue::Blob(b)) && b@ == bytes
}

/// What an error hands back: its description as the message where SQLite described it,
/// its bare code where SQLite did not, nothing for `NoChange`, and its message otherwise.
/// The text of a `Utf8Error` is the standard library's, and so is not stated here.
pub open spec fn error_result(e: Error, r: FunctionResult) -> bool {
    match e {
        Error::Sqlite(_, Some(desc)) => r matches FunctionResult::Error(m) && m@ == desc@,
        Error::Sqlite(code, None) => r matches FunctionResult::ErrorCode(c) && c == code,
        Error::NoChange => r is Unchanged,
        Error::Utf8Error(_) => r is Error,
        Error::VersionNotSatisfied(v) => r matches FunctionResult::Error(m) && (v >= 0 ==> m@
            == message_text(e)),
        _ => r matches FunctionResult::Error(m) && m@ == message_text(e),
    }
}

/// A value that an SQL function can return.
pub trait ToContextResult: Sized {
    /// Whether `r` is what this value hands back to SQLite.
    spec fn describes(&self, r: FunctionResult) -> bool;

    /// What this value hands back to SQLite.
    fn into_result(self) -> (r: FunctionResult)
        ensures
            self.describes(r),
    ;
}

/// A copy of the bytes.
fn copy_bytes(b: &[u8]) -> (v: Vec<u8>)
    ensures
        v@ == b@,
{
    let mut out: Vec<u8> = Vec::new();
    let mut i: usize = 0;
    while i < b.len()
        invariant
            i <= b@.len(),
            out@ == b@.subrange(0, i as int),
        decreases b@.len() - i,
    {
        out.push(b[i]);
        i = i + 1;
    }
    out
}

/// A copy of a stored value.
pub fn copy_raw(v: &RawValue) -> (c: RawValue)
    ensures
        raw_eq(c, *v),
{
    match v {
        RawValue::Integer(i) => RawValue::Integer(*i),
        RawValue::Float(f, t) => RawValue::Float(*f, copy_bytes(t.as_slice())),
        RawValue::Text(t) => RawValue::Text(copy_bytes(t.as_slice())),
        RawValue::Blob(b) => RawValue::Blob(copy_bytes(b.as_slice())),
        RawValue::Null => RawValue::Null,
    }
}

/// NULL.
impl ToContextResult for () {
    open spec fn describes(&self, r: FunctionResult) -> bool {
        is_value(r, RawValue::Null)
    }

    fn into_result(self) -> (r: FunctionResult) {
        FunctionResult::Value(RawValue::Null)
    }
}

/// 1 for true, 0 for false.
impl ToContextResult for bool {
    open spec fn describes(&self, r: FunctionResult) -> bool {
        is_value(r, RawValue::Integer(if *self { 1 } else { 0 }))
    }

    fn into_result(self) -> (r: FunctionResult) {
        FunctionResult::Value(RawValue::Integer(if self { 1 } else { 0 }))
    }
}

/// The integer.
impl ToContextResult for i32 {
    open spec fn describes(&self, r: FunctionResult) -> bool {
        is_value(r, RawValue::Integer(*self as i64))
    }

    fn into_result(self) -> (r: FunctionResult) {
        FunctionResult::Value(RawValue::Integer(self as i64))
    }
}

/// The integer.
impl ToContextResult for i64 {
    open spec fn describes(&self, r: FunctionResult) -> bool {
        is_value(r, RawValue::Integer(*self))
    }

    fn into_result(self) -> (r: FunctionResult) {
        FunctionResult::Value(RawValue::Integer(self))
    }
}

/// The string, as TEXT.
impl ToContextResult for &'static str {
    open spec fn describes(&self, r: FunctionResult) -> bool {
        is_text(r, encode_utf8(self@))
    }

    fn into_result(self) -> (r: FunctionResult) {
        FunctionResult::Value(RawValue::Text(copy_bytes(self.as_bytes())))
    }
}

/// The string, as TEXT.
impl ToContextResult for String {
    open spec fn describes(&self, r: FunctionResult) -> bool {
        is_text(r, encode_utf8(self@))
    }

    fn into_result(self) -> (r: FunctionResult) {
        FunctionResult::Value(RawValue::Text(copy_bytes(self.as_str().as_bytes())))
    }
}

/// The bytes, as a BLOB.
impl ToContextResult for Blob {
    open spec fn describes(&self, r: FunctionResult) -> bool {
        is_blob(r, self@)
    }

    fn into_result(self) -> (r: FunctionResult) {
        FunctionResult::Value(RawValue::Blob(self.into_vec()))
    }
}

/// The bytes, as a BLOB.
impl<'a> ToContextResult for &'a [u8] {
    open spec fn describes(&self, r: FunctionResult) -> bool {
        is_blob(r, self@)
    }

    fn into_result(self) -> (r: FunctionResult) {
        FunctionResult::Value(RawValue::Blob(copy_bytes(self)))
    }
}

/// The bytes, as a BLOB.
impl<'a, const N: usize> ToContextResult for &'a [u8; N] {
    open spec fn describes(&self, r: FunctionResult) -> bool {
        is_blob(r, self@)
    }

    fn into_result(self) -> (r: FunctionResult) {
        FunctionResult::Value(RawValue::Blob(copy_bytes(self.as_slice())))
    }
}

/// The error: see [error_result].
impl ToContextResult for Error {
    open spec fn describes(&self, r: FunctionResult) -> bool {
        error_result(*self, r)
    }

    fn into_result(self) -> (r: FunctionResult) {
        match self {
            Error::Sqlite(_, Some(desc)) => FunctionResult::Error(desc),
            Error::Sqlite(code, None) => FunctionResult::ErrorCode(code),
            Error::NoChange => FunctionResult::Unchanged,
            other => FunctionResult::Error(other.to_string()),
        }
    }
}

/// The value that the reference holds.
impl<'a> ToContextResult for &'a ValueRef {
    open spec fn describes(&self, r: FunctionResult) -> bool {
        is_value(r, self.spec_value())
    }

    fn into_result(self) -> (r: FunctionResult) {
        FunctionResult::Value(copy_raw(self.value()))
    }
}

/// The value that the reference holds.
impl<'a> ToContextResult for &'a mut ValueRef {
    open spec fn describes(&self, r: FunctionResult) -> bool {
        is_value(r, self.spec_value())
    }

    fn into_result(self) -> (r: FunctionResult) {
        FunctionResult::Value(copy_raw(self.value()))
    }
}

/// The contained value, or NULL.
impl<T: ToContextResult> ToContextResult for Option<T> {
    open spec fn describes(&self, r: FunctionResult) -> bool {
        match self {
            Some(x) => x.describes(r),
            None => is_value(r, RawValue::Null),
        }
    }

    fn into_result(self) -> (r: FunctionResult) {
        match self {
            Some(x) => x.into_result(),
            None => FunctionResult::Value(RawValue::Null),
        }
    }
}

/// The value, or the error.
impl<T: ToContextResult> ToContextResult for Result<T> {
    open spec fn describes(&self, r: FunctionResult) -> bool {
        match self {
            Ok(x) => x.describes(r),
            Err(e) => e.describes(r),
        }
    }

    fn into_result(self) -> (r: FunctionResult) {
        match self {
            Ok(x) => x.into_result(),
            Err(e) => e.into_result(),
        }
    }
}

/// The value, in its own datatype.
impl ToContextResult for Value {
    open spec fn describes(&self, r: FunctionResult) -> bool {
        match self {
            Value::Integer(i) => is_value(r, RawValue::Integer(*i)),
            Value::Float(f) => r matches FunctionResult::Value(RawValue::Float(g, _)) && g == *f,
            Value::Text(s) => is_text(r, encode_utf8(s@)),
            Value::Blob(b) => is_blob(r, b@),
            Value::Null => is_value(r, RawValue::Null),
        }
    }

    fn into_result(self) -> (r: FunctionResult) {
        match self {
            Value::Integer(i) => FunctionResult::Value(RawValue::Integer(i)),
            Value::Float(f) => FunctionResult::Value(RawValue::Float(f, Vec::new())),
            Value::Text(s) => s.into_result(),
            Value::Blob(b) => b.into_result(),
            Value::Null => FunctionResult::Value(RawValue::Null),
        }
    }
}

/// A result made elsewhere is handed back as it is.
impl ToContextResult for FunctionResult {
    open spec fn describes(&self, r: FunctionResult) -> bool {
        r == *self
    }

    fn into_result(self) -> (r: FunctionResult) {
        self
    }
}

/// The environment of one call of an application-defined function: the result that the
/// call sets.
pub struct Context {
    result: Option<FunctionResult>,
}

impl Context {
    /// The result set so far, if any.
    pub closed spec fn spec_result(&self) -> Option<FunctionResult> {
        self.result
    }

    /// A context in which no result is set yet.
    pub fn new() -> (c: Context)
        ensures
            c.spec_result() is None,
    {
        Context { result: None }
    }

    /// Assign the given value to the result of the function. This always returns Ok.
    pub fn set_result<R: ToContextResult>(&mut self, val: R) -> (r: Result<()>)
        ensures
            r is Ok,
            final(self).spec_result() matches Some(x) && val.describes(x),
    {
        self.result = Some(val.into_result());
        Ok(())
    }

    /// Take the result that was set, leaving none.
    pub fn take_result(&mut self) -> (r: Option<FunctionResult>)
        ensures
            r == old(self).spec_result(),
            final(self).spec_result() is None,
    {
        let r = self.result.take();
        r
    }
}

} // verus!
