//! Failure vocabulary of the engine.

use vstd::prelude::*;

verus! {

/// Why a descriptor's text was rejected by the parser.
#[derive(Clone, Copy, Debug, PartialEq, Eq, Structural)]
pub enum ParseFault {
    /// A line is neither blank, a comment, a section header nor `key = value`.
    BadLine,
    /// A section header other than `[target]`.
    UnknownSection,
    /// The `[target]` header appears twice.
    DuplicateSection,
    /// A `key = value` line before the `[target]` header.
    KeyOutsideSection,
    /// A key other than `style`, `path` or `exclude`.
    UnknownKey,
    /// The same key given twice.
    DuplicateKey,
    /// A value that is not a plain double-quoted string where one is required.
    BadString,
    /// An `exclude` value that is not an array of plain strings.
    BadArray,
    /// A `style` other than `"bytes"` or `"dconf"`.
    UnknownStyle,
    /// No `[target]` section in the whole text.
    MissingSection,
    /// The `style` key is absent.
    MissingStyle,
    /// The `path` key is absent.
    MissingPath,
    /// `exclude` given for a style that does not filter keys.
    ExcludeNotAllowed,
}

/// One descriptor sync's failure. Variants carrying a `String` hold the
/// underlying cause's text; the caller attaches the offending path.
#[derive(Debug)]
pub enum SyncError {
    /// The descriptor path does not carry the required extension.
    InvalidDescriptorKind,
    /// The descriptor file could not be read.
    ReadFailure(String),
    /// The descriptor text violates the schema.
    MalformedDescriptor(ParseFault),
    /// The descriptor path has no directory component to resolve against.
    NoParentDirectory,
    /// The associated data file is absent on a push.
    AssociatedFileMissing,
    /// The resource could not be read.
    ResourceReadFailure(String),
    /// The resource could not be written back.
    ResourceWriteFailure(String),
    /// The settings store could not be opened or enumerated.
    StoreReadFailure(String),
    /// The selected backend does not support the push direction.
    PushUnsupported,
    /// The target path does not exist.
    NotFound,
    /// The target path is neither a file nor a directory.
    NotFileOrDirectory,
    /// At least one descriptor of a directory batch failed.
    BatchFailed,
}

} // verus!
