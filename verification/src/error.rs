use vstd::prelude::*;

verus! {

/// Failure taxonomy of chunk construction. Every failure aborts the whole
/// construction; nothing is caught or downgraded inside this crate.
#[derive(Clone, Copy, Debug, PartialEq, Eq, Structural)]
pub enum Error {
    /// The raw metadata bytes failed to decode, or the embedded identity
    /// could not be extracted: on-disk or write-path corruption.
    CorruptMetadata,
    /// A surrogate key has no corresponding catalog entry: the file
    /// references a deleted or never-created table, partition or namespace.
    UnresolvedIdentifier,
    /// The derived ordering value would be zero: a sequence-numbering
    /// assumption was violated.
    OrderOverflow,
    /// The file size recorded in the catalog disagrees with the decoded
    /// metadata: decoder/writer disagreement.
    UnderlyingChunkConstructionFailure,
}

} // verus!
