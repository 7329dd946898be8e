use vstd::prelude::*;
use vstd::string::StringSliceAdditionalSpecFns;
use vstd::std_specs::convert::FromSpec;
use vstd::std_specs::convert::FromSpecImpl;
use vstd::utf8::decode_utf8;
use vstd::utf8::encode_utf8_decode_utf8;
use vstd::utf8::valid_utf8;

use crate::types::Type;

verus! {

/// Variable-length buffer descriptor backing TEXT and BLOB column data: a
/// view over possibly-absent payload bytes.
///
/// "Absent" (`data` is `None`, standing for a null address) is a case of its
/// own, distinct from an empty buffer. A `RawData` never owns its bytes:
/// ownership lives in the backing storage block, and the descriptor is valid
/// only as long as that block is not reclaimed — here, for the lifetime the
/// borrow carries.
#[derive(Clone, Copy, Debug)]
pub struct RawData<'a> {
    /// The payload bytes, or `None` when the descriptor points at no data.
    pub data: Option<&'a [u8]>,
}

/// Relies on std::str::from_utf8: it succeeds exactly on valid UTF-8 and
/// returns a string slice over the same bytes.
#[verifier::external_body]
fn utf8_view<'b>(b: &'b [u8]) -> (r: Option<&'b str>)
    ensures
        r is Some <==> valid_utf8(b@),
        r matches Some(s) ==> s.spec_bytes() == b@,
{
    std::str::from_utf8(b).ok()
}

impl<'a> RawData<'a> {
    /// The descriptor for absent data: a null address and zero length.
    pub fn absent() -> (r: Self)
        ensures
            r.data is None,
    {
        RawData { data: None }
    }

    /// A descriptor over the given payload bytes.
    pub fn from_bytes(b: &'a [u8]) -> (r: Self)
        ensures
            r.data == Some(b),
    {
        RawData { data: Some(b) }
    }

    /// Whether the descriptor points at no data at all.
    pub fn is_absent(&self) -> (r: bool)
        ensures
            r == (self.data is None),
    {
        self.data.is_none()
    }

    /// The byte length of the payload; zero when absent.
    pub fn size(&self) -> (n: usize)
        ensures
            n == match self.data {
                Some(b) => b@.len(),
                None => 0,
            },
    {
        match self.data {
            Some(b) => b.len(),
            None => 0,
        }
    }

    /// The payload bytes; an absent descriptor reads as absent, never as a
    /// buffer.
    pub fn as_bytes(&self) -> (r: Option<&'a [u8]>)
        ensures
            r == self.data,
    {
        self.data
    }

    /// The payload read as text. An absent descriptor reads as absent and is
    /// never dereferenced. The bytes of a TEXT column are valid UTF-8 by the
    /// construction discipline of the storage layer, which callers carry as
    /// the precondition.
    pub fn as_text(&self) -> (r: Option<&'a str>)
        requires
            self.data matches Some(b) ==> valid_utf8(b@),
        ensures
            self.data is None ==> r is None,
            self.data matches Some(b) ==> r matches Some(s) && s.spec_bytes() == b@,
    {
        match self.data {
            None => None,
            Some(b) => Some(utf8_view(b).unwrap()),
        }
    }

    /// The payload copied into an owned string; an absent descriptor yields
    /// the empty string.
    pub fn to_string(&self) -> (r: String)
        requires
            self.data matches Some(b) ==> valid_utf8(b@),
        ensures
            self.data is None ==> r@ == Seq::<char>::empty(),
            self.data matches Some(b) ==> r@ == decode_utf8(b@),
    {
        match self.as_text() {
            None => String::new(),
            Some(s) => {
                proof {
                    broadcast use encode_utf8_decode_utf8;

                }
                s.to_owned()
            },
        }
    }
}

/// The null marker: the value of an absent database column cell.
pub struct NullType;

/// The one value of the null marker.
pub const NULL_VALUE: NullType = NullType;

/// A single column value of any symbolic type, as handed between a cursor's
/// output and a row-level reader.
///
/// TEXT and BLOB values borrow from the buffer that materialized them (a
/// storage block or a cursor chunk) and must not outlive it. FLOAT32 and
/// FLOAT64 values carry the raw bit pattern of the number; the core defines
/// no arithmetic on values, so the pattern is transport enough. `Value` is a
/// pure transport representation: no comparison or coercion is defined on it
/// here.
#[derive(Clone, Copy, PartialEq, Debug)]
pub enum Value<'a> {
    NULL,
    UINT32(u32),
    UINT64(u64),
    INT32(i32),
    INT64(i64),
    FLOAT32(u32),
    FLOAT64(u64),
    BOOLEAN(bool),
    TEXT(&'a str),
    BLOB(&'a [u8]),
}

/// The unique symbolic type a value's variant is derived back to; NULL alone
/// is type-polymorphic and maps to none.
pub open spec fn spec_type_of(v: Value) -> Option<Type> {
    match v {
        Value::NULL => None,
        Value::UINT32(_) => Some(Type::UINT32),
        Value::UINT64(_) => Some(Type::UINT64),
        Value::INT32(_) => Some(Type::INT32),
        Value::INT64(_) => Some(Type::INT64),
        Value::FLOAT32(_) => Some(Type::FLOAT32),
        Value::FLOAT64(_) => Some(Type::FLOAT64),
        Value::BOOLEAN(_) => Some(Type::BOOLEAN),
        Value::TEXT(_) => Some(Type::TEXT),
        Value::BLOB(_) => Some(Type::BLOB),
    }
}

impl<'a> Value<'a> {
    /// The symbolic type this value's variant stands for; NULL has none.
    pub fn type_of(&self) -> (r: Option<Type>)
        ensures
            r == spec_type_of(*self),
    {
        match self {
            Value::NULL => None,
            Value::UINT32(_) => Some(Type::UINT32),
            Value::UINT64(_) => Some(Type::UINT64),
            Value::INT32(_) => Some(Type::INT32),
            Value::INT64(_) => Some(Type::INT64),
            Value::FLOAT32(_) => Some(Type::FLOAT32),
            Value::FLOAT64(_) => Some(Type::FLOAT64),
            Value::BOOLEAN(_) => Some(Type::BOOLEAN),
            Value::TEXT(_) => Some(Type::TEXT),
            Value::BLOB(_) => Some(Type::BLOB),
        }
    }

    /// A FLOAT32 value from the raw 32-bit pattern of the number.
    pub fn float32_from_bits(bits: u32) -> (r: Self)
        ensures
            r == Value::<'a>::FLOAT32(bits),
    {
        Value::FLOAT32(bits)
    }

    /// A FLOAT64 value from the raw 64-bit pattern of the number.
    pub fn float64_from_bits(bits: u64) -> (r: Self)
        ensures
            r == Value::<'a>::FLOAT64(bits),
    {
        Value::FLOAT64(bits)
    }
}

impl<'a> FromSpecImpl<NullType> for Value<'a> {
    open spec fn obeys_from_spec() -> bool {
        true
    }

    open spec fn from_spec(v: NullType) -> Self {
        Value::NULL
    }
}

impl<'a> From<NullType> for Value<'a> {
    fn from(v: NullType) -> Self {
        Value::NULL
    }
}

impl<'a> FromSpecImpl<u32> for Value<'a> {
    open spec fn obeys_from_spec() -> bool {
        true
    }

    open spec fn from_spec(v: u32) -> Self {
        Value::UINT32(v)
    }
}

impl<'a> From<u32> for Value<'a> {
    fn from(v: u32) -> Self {
        Value::UINT32(v)
    }
}

impl<'a> FromSpecImpl<u64> for Value<'a> {
    open spec fn obeys_from_spec() -> bool {
        true
    }

    open spec fn from_spec(v: u64) -> Self {
        Value::UINT64(v)
    }
}

impl<'a> From<u64> for Value<'a> {
    fn from(v: u64) -> Self {
        Value::UINT64(v)
    }
}

impl<'a> FromSpecImpl<i32> for Value<'a> {
    open spec fn obeys_from_spec() -> bool {
        true
    }

    open spec fn from_spec(v: i32) -> Self {
        Value::INT32(v)
    }
}

impl<'a> From<i32> for Value<'a> {
    fn from(v: i32) -> Self {
        Value::INT32(v)
    }
}

impl<'a> FromSpecImpl<i64> for Value<'a> {
    open spec fn obeys_from_spec() -> bool {
        true
    }

    open spec fn from_spec(v: i64) -> Self {
        Value::INT64(v)
    }
}

impl<'a> From<i64> for Value<'a> {
    fn from(v: i64) -> Self {
        Value::INT64(v)
    }
}

impl<'a> FromSpecImpl<bool> for Value<'a> {
    open spec fn obeys_from_spec() -> bool {
        true
    }

    open spec fn from_spec(v: bool) -> Self {
        Value::BOOLEAN(v)
    }
}

impl<'a> From<bool> for Value<'a> {
    fn from(v: bool) -> Self {
        Value::BOOLEAN(v)
    }
}

impl<'a> FromSpecImpl<&'a str> for Value<'a> {
    open spec fn obeys_from_spec() -> bool {
        true
    }

    open spec fn from_spec(v: &'a str) -> Self {
        Value::TEXT(v)
    }
}

impl<'a> From<&'a str> for Value<'a> {
    fn from(v: &'a str) -> Self {
        Value::TEXT(v)
    }
}

impl<'a> FromSpecImpl<&'a [u8]> for Value<'a> {
    open spec fn obeys_from_spec() -> bool {
        true
    }

    open spec fn from_spec(v: &'a [u8]) -> Self {
        Value::BLOB(v)
    }
}

impl<'a> From<&'a [u8]> for Value<'a> {
    fn from(v: &'a [u8]) -> Self {
        Value::BLOB(v)
    }
}

/// Law: converting each native scalar, string view, byte view, and the null
/// marker into a [`Value`] yields exactly the variant matching the input's
/// static type, never a mismatched or ambiguous one.
pub proof fn lemma_value_from_variants<'a>(
    n: NullType,
    a: u32,
    b: u64,
    c: i32,
    d: i64,
    e: bool,
    s: &'a str,
    y: &'a [u8],
)
    ensures
        <Value<'a> as FromSpec<NullType>>::from_spec(n) == Value::<'a>::NULL,
        <Value<'a> as FromSpec<u32>>::from_spec(a) == Value::<'a>::UINT32(a),
        <Value<'a> as FromSpec<u64>>::from_spec(b) == Value::<'a>::UINT64(b),
        <Value<'a> as FromSpec<i32>>::from_spec(c) == Value::<'a>::INT32(c),
        <Value<'a> as FromSpec<i64>>::from_spec(d) == Value::<'a>::INT64(d),
        <Value<'a> as FromSpec<bool>>::from_spec(e) == Value::<'a>::BOOLEAN(e),
        <Value<'a> as FromSpec<&'a str>>::from_spec(s) == Value::<'a>::TEXT(s),
        <Value<'a> as FromSpec<&'a [u8]>>::from_spec(y) == Value::<'a>::BLOB(y),
        spec_type_of(<Value<'a> as FromSpec<u32>>::from_spec(a)) == Some(Type::UINT32),
        spec_type_of(<Value<'a> as FromSpec<u64>>::from_spec(b)) == Some(Type::UINT64),
        spec_type_of(<Value<'a> as FromSpec<i32>>::from_spec(c)) == Some(Type::INT32),
        spec_type_of(<Value<'a> as FromSpec<i64>>::from_spec(d)) == Some(Type::INT64),
        spec_type_of(<Value<'a> as FromSpec<bool>>::from_spec(e)) == Some(Type::BOOLEAN),
        spec_type_of(<Value<'a> as FromSpec<&'a str>>::from_spec(s)) == Some(Type::TEXT),
        spec_type_of(<Value<'a> as FromSpec<&'a [u8]>>::from_spec(y)) == Some(Type::BLOB),
        spec_type_of(<Value<'a> as FromSpec<NullType>>::from_spec(n)) is None,
{
}

} // verus!
