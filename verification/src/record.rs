//! What the runtime tells of a fault.

use vstd::prelude::*;

verus! {

/// The place in the source at which a fault was raised.
#[derive(Clone, Copy, Debug)]
pub struct Location<'a> {
    /// Path of the source file, as the compiler recorded it.
    pub file: &'a str,
    /// Line in that file, counted from 1.
    pub line: u32,
    /// Column in that line, counted from 1.
    pub column: u32,
}

/// The diagnostic fields of one fault. Either may be missing: the runtime may
/// know no location, and a message that was built from arguments at run time
/// is not available as plain text.
#[derive(Clone, Copy, Debug)]
pub struct DiagnosticRecord<'a> {
    /// Where the fault was raised, if known.
    pub location: Option<Location<'a>>,
    /// The message as plain text, if it is one.
    pub message: Option<&'a str>,
}

} // verus!
