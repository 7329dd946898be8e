use vstd::prelude::*;
use vstd::string::StrSliceExecFns;

use crate::error::DBError;
use crate::value::RawData;

verus! {

/// Symbolic type of a column: the closed set of physical value kinds.
///
/// A `Type` carries no data itself; it names a physical layout wherever one
/// must be named at runtime (schema definitions, error messages).
#[derive(Clone, Copy, PartialEq, Eq, Structural, Debug)]
pub enum Type {
    UINT32,
    UINT64,
    INT32,
    INT64,
    FLOAT32,
    FLOAT64,
    BOOLEAN,
    TEXT,
    BLOB,
}

/// The canonical name of each symbolic type, as a sequence of characters.
/// Parsing and display are both exact matches against these nine names.
pub open spec fn spec_name(t: Type) -> Seq<char> {
    match t {
        Type::UINT32 => "UINT32"@,
        Type::UINT64 => "UINT64"@,
        Type::INT32 => "INT32"@,
        Type::INT64 => "INT64"@,
        Type::FLOAT32 => "FLOAT32"@,
        Type::FLOAT64 => "FLOAT64"@,
        Type::BOOLEAN => "BOOLEAN"@,
        Type::TEXT => "TEXT"@,
        Type::BLOB => "BLOB"@,
    }
}

/// The metadata table: fixed physical size in bytes of one value of each
/// symbolic type. For the variable-length types (TEXT, BLOB) this is the
/// size of the descriptor — an address and a byte length, eight bytes each —
/// not of the payload.
pub open spec fn spec_size_of(t: Type) -> usize {
    match t {
        Type::UINT32 => 4,
        Type::UINT64 => 8,
        Type::INT32 => 4,
        Type::INT64 => 8,
        Type::FLOAT32 => 4,
        Type::FLOAT64 => 8,
        Type::BOOLEAN => 1,
        Type::TEXT => 16,
        Type::BLOB => 16,
    }
}

/// The metadata table: whether the physical representation of a symbolic
/// type is variable-length (a descriptor pointing at payload bytes).
pub open spec fn spec_varlen(t: Type) -> bool {
    match t {
        Type::TEXT => true,
        Type::BLOB => true,
        _ => false,
    }
}

/// The metadata table: whether copying a value of a symbolic type requires a
/// deep copy of the referenced bytes rather than a bitwise copy. False only
/// for the fixed-width, non-owning numeric and boolean types.
pub open spec fn spec_deep_copy(t: Type) -> bool {
    spec_varlen(t)
}

/// What parsing a character sequence yields: the unique symbolic type whose
/// canonical name it is, or nothing when it is no canonical name.
pub open spec fn spec_parse(s: Seq<char>) -> Option<Type> {
    if s == spec_name(Type::UINT32) {
        Some(Type::UINT32)
    } else if s == spec_name(Type::UINT64) {
        Some(Type::UINT64)
    } else if s == spec_name(Type::INT32) {
        Some(Type::INT32)
    } else if s == spec_name(Type::INT64) {
        Some(Type::INT64)
    } else if s == spec_name(Type::FLOAT32) {
        Some(Type::FLOAT32)
    } else if s == spec_name(Type::FLOAT64) {
        Some(Type::FLOAT64)
    } else if s == spec_name(Type::BOOLEAN) {
        Some(Type::BOOLEAN)
    } else if s == spec_name(Type::TEXT) {
        Some(Type::TEXT)
    } else if s == spec_name(Type::BLOB) {
        Some(Type::BLOB)
    } else {
        None
    }
}

/// Character-for-character equality of two string slices.
pub(crate) fn str_eq(a: &str, b: &str) -> (r: bool)
    ensures
        r == (a@ == b@),
{
    let n = a.unicode_len();
    if n != b.unicode_len() {
        return false;
    }
    let mut i: usize = 0;
    while i < n
        invariant
            n == a@.len(),
            n == b@.len(),
            i <= n,
            forall|j: int| 0 <= j < i ==> a@[j] == b@[j],
        decreases n - i,
    {
        if a.get_char(i) != b.get_char(i) {
            return false;
        }
        i += 1;
    }
    proof {
        assert(a@ =~= b@);
    }
    true
}

impl Type {
    /// The canonical uppercase identifier of this symbolic type. Total and
    /// pure; display always emits this form.
    pub fn name(self) -> (r: &'static str)
        ensures
            r@ == spec_name(self),
    {
        match self {
            Type::UINT32 => "UINT32",
            Type::UINT64 => "UINT64",
            Type::INT32 => "INT32",
            Type::INT64 => "INT64",
            Type::FLOAT32 => "FLOAT32",
            Type::FLOAT64 => "FLOAT64",
            Type::BOOLEAN => "BOOLEAN",
            Type::TEXT => "TEXT",
            Type::BLOB => "BLOB",
        }
    }

    /// The fixed physical byte size of one value of this symbolic type, read
    /// from the metadata table: the slot a storage block reserves for a
    /// fixed-width value, or the descriptor size for a variable-length one.
    pub fn size_of(self) -> (n: usize)
        ensures
            n == spec_size_of(self),
    {
        match self {
            Type::UINT32 => 4,
            Type::UINT64 => 8,
            Type::INT32 => 4,
            Type::INT64 => 8,
            Type::FLOAT32 => 4,
            Type::FLOAT64 => 8,
            Type::BOOLEAN => 1,
            Type::TEXT => 16,
            Type::BLOB => 16,
        }
    }

    /// Whether this symbolic type has a variable-length representation.
    pub fn varlen(self) -> (b: bool)
        ensures
            b == spec_varlen(self),
    {
        match self {
            Type::TEXT => true,
            Type::BLOB => true,
            _ => false,
        }
    }

    /// Whether copying a value of this symbolic type requires a deep copy of
    /// its referenced bytes.
    pub fn deep_copy(self) -> (b: bool)
        ensures
            b == spec_deep_copy(self),
    {
        self.varlen()
    }

    /// Parses a symbolic type from its canonical name. Case-sensitive and
    /// exact-match against the nine canonical names; any other string fails
    /// with [`DBError::UnknownType`] carrying the offending text.
    pub fn from_str(s: &str) -> (r: Result<Type, DBError>)
        ensures
            match r {
                Ok(t) => spec_parse(s@) == Some(t),
                Err(e) => spec_parse(s@) is None && (e matches DBError::UnknownType(m)
                    && m@ == s@),
            },
    {
        if str_eq(s, "UINT32") {
            Ok(Type::UINT32)
        } else if str_eq(s, "UINT64") {
            Ok(Type::UINT64)
        } else if str_eq(s, "INT32") {
            Ok(Type::INT32)
        } else if str_eq(s, "INT64") {
            Ok(Type::INT64)
        } else if str_eq(s, "FLOAT32") {
            Ok(Type::FLOAT32)
        } else if str_eq(s, "FLOAT64") {
            Ok(Type::FLOAT64)
        } else if str_eq(s, "BOOLEAN") {
            Ok(Type::BOOLEAN)
        } else if str_eq(s, "TEXT") {
            Ok(Type::TEXT)
        } else if str_eq(s, "BLOB") {
            Ok(Type::BLOB)
        } else {
            Err(DBError::UnknownType(s.to_owned()))
        }
    }
}

/// Law: every canonical name parses back to its own variant, so parsing the
/// display of a type is the identity on types.
pub proof fn lemma_parse_of_name(t: Type)
    ensures
        spec_parse(spec_name(t)) == Some(t),
{
    reveal_strlit("UINT32");
    reveal_strlit("UINT64");
    reveal_strlit("INT32");
    reveal_strlit("INT64");
    reveal_strlit("FLOAT32");
    reveal_strlit("FLOAT64");
    reveal_strlit("BOOLEAN");
    reveal_strlit("TEXT");
    reveal_strlit("BLOB");
    // The nine canonical names are pairwise distinct: where two share a
    // length, some character tells them apart.
    assert(spec_name(Type::UINT32).len() == 6);
    assert(spec_name(Type::UINT64).len() == 6);
    assert(spec_name(Type::INT32).len() == 5);
    assert(spec_name(Type::INT64).len() == 5);
    assert(spec_name(Type::FLOAT32).len() == 7);
    assert(spec_name(Type::FLOAT64).len() == 7);
    assert(spec_name(Type::BOOLEAN).len() == 7);
    assert(spec_name(Type::TEXT).len() == 4);
    assert(spec_name(Type::BLOB).len() == 4);
    assert(spec_name(Type::UINT32)[4] == '3');
    assert(spec_name(Type::UINT64)[4] == '6');
    assert(spec_name(Type::INT32)[3] == '3');
    assert(spec_name(Type::INT64)[3] == '6');
    assert(spec_name(Type::FLOAT32)[5] == '3');
    assert(spec_name(Type::FLOAT64)[5] == '6');
    assert(spec_name(Type::BOOLEAN)[0] == 'B');
    assert(spec_name(Type::FLOAT32)[0] == 'F');
    assert(spec_name(Type::FLOAT64)[0] == 'F');
    assert(spec_name(Type::TEXT)[0] == 'T');
    assert(spec_name(Type::BLOB)[0] == 'B');
}

/// Law: whatever parses successfully displays back to the very string that
/// was parsed, so displaying the parse of a canonical name is the identity
/// on names.
pub proof fn lemma_name_of_parse(s: Seq<char>)
    ensures
        spec_parse(s) matches Some(t) ==> spec_name(t) == s,
{
}

/// Compile-time metadata about the physical representation of a symbolic
/// type, for generic code that knows the marker type statically. Every
/// method reads the same metadata table that the runtime path
/// ([`Type::size_of`] and friends) reads, so the two access paths cannot
/// disagree.
pub trait TypeInfo {
    /// The native Rust type backing a column vector of this type.
    type Store;

    /// The symbolic type this marker stands for.
    spec fn sym() -> Type;

    /// The symbolic type tag, as a runtime value.
    fn symbolic() -> (t: Type)
        ensures
            t == Self::sym(),
    ;

    /// Whether copying a value of this type must deep-copy referenced bytes.
    fn deep_copy() -> (b: bool)
        ensures
            b == spec_deep_copy(Self::sym()),
    {
        Self::symbolic().deep_copy()
    }

    /// Whether the physical representation is variable-length.
    fn varlen() -> (b: bool)
        ensures
            b == spec_varlen(Self::sym()),
    {
        Self::symbolic().varlen()
    }

    /// Fixed physical size in bytes of one value of this type.
    fn size() -> (n: usize)
        ensures
            n == spec_size_of(Self::sym()),
    {
        Self::symbolic().size_of()
    }
}

/// Marker for the UINT32 symbolic type.
pub struct UInt32;

/// Marker for the UINT64 symbolic type.
pub struct UInt64;

/// Marker for the INT32 symbolic type.
pub struct Int32;

/// Marker for the INT64 symbolic type.
pub struct Int64;

/// Marker for the FLOAT32 symbolic type; column data is stored as the raw
/// 32-bit pattern of each value.
pub struct Float32;

/// Marker for the FLOAT64 symbolic type; column data is stored as the raw
/// 64-bit pattern of each value.
pub struct Float64;

/// Marker for the BOOLEAN symbolic type.
pub struct Boolean;

/// Marker for the TEXT symbolic type.
pub struct Text;

/// Marker for the BLOB symbolic type.
pub struct Blob;

impl TypeInfo for UInt32 {
    type Store = u32;

    open spec fn sym() -> Type {
        Type::UINT32
    }

    fn symbolic() -> Type {
        Type::UINT32
    }
}

impl TypeInfo for UInt64 {
    type Store = u64;

    open spec fn sym() -> Type {
        Type::UINT64
    }

    fn symbolic() -> Type {
        Type::UINT64
    }
}

impl TypeInfo for Int32 {
    type Store = i32;

    open spec fn sym() -> Type {
        Type::INT32
    }

    fn symbolic() -> Type {
        Type::INT32
    }
}

impl TypeInfo for Int64 {
    type Store = i64;

    open spec fn sym() -> Type {
        Type::INT64
    }

    fn symbolic() -> Type {
        Type::INT64
    }
}

impl TypeInfo for Float32 {
    type Store = u32;

    open spec fn sym() -> Type {
        Type::FLOAT32
    }

    fn symbolic() -> Type {
        Type::FLOAT32
    }
}

impl TypeInfo for Float64 {
    type Store = u64;

    open spec fn sym() -> Type {
        Type::FLOAT64
    }

    fn symbolic() -> Type {
        Type::FLOAT64
    }
}

impl TypeInfo for Boolean {
    type Store = bool;

    open spec fn sym() -> Type {
        Type::BOOLEAN
    }

    fn symbolic() -> Type {
        Type::BOOLEAN
    }
}

impl TypeInfo for Text {
    type Store = RawData<'static>;

    open spec fn sym() -> Type {
        Type::TEXT
    }

    fn symbolic() -> Type {
        Type::TEXT
    }
}

impl TypeInfo for Blob {
    type Store = RawData<'static>;

    open spec fn sym() -> Type {
        Type::BLOB
    }

    fn symbolic() -> Type {
        Type::BLOB
    }
}

/// Compile-time capability flag on a column declaration: whether the
/// column's values may be absent. This is a static property of the
/// declaration, not a per-value runtime flag.
pub trait NullInfo {
    /// Whether a column declared with this marker may hold absent values.
    spec fn spec_nullable() -> bool;

    /// The capability flag, as a runtime value.
    fn nullable() -> (b: bool)
        ensures
            b == Self::spec_nullable(),
    ;
}

/// Marker for columns whose values may be absent.
pub struct Nullable;

/// Marker for columns whose values are always present.
pub struct NotNullable;

impl NullInfo for Nullable {
    open spec fn spec_nullable() -> bool {
        true
    }

    fn nullable() -> bool {
        true
    }
}

impl NullInfo for NotNullable {
    open spec fn spec_nullable() -> bool {
        false
    }

    fn nullable() -> bool {
        false
    }
}

} // verus!
