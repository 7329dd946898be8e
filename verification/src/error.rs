use vstd::prelude::*;

verus! {

/// Errors surfaced by the core: parsing a symbolic type name, binding an
/// operation into a cursor, or pulling the next chunk from a cursor.
///
/// Errors are values returned up the call chain; end-of-stream is a distinct
/// successful value ([`crate::operation::CursorChunk::End`]), never an error.
#[derive(Debug)]
pub enum DBError {
    /// A type name outside the canonical nine-name set; carries the
    /// offending text for diagnostics.
    UnknownType(String),
    /// A child cursor's output schema does not satisfy what the parent
    /// operation requires.
    SchemaMismatch,
    /// The allocator could not supply the scratch memory an operation asked
    /// for at bind time.
    AllocatorExhausted,
    /// A malformed operation tree discovered at bind time.
    MalformedPlan,
    /// Corrupt or undecodable stored data reached while pulling a cursor.
    CorruptData,
}

} // verus!
