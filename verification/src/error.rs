use vstd::prelude::*;

verus! {

/// The failure taxonomy of the orchestration. Every error is fatal: the
/// whole workflow aborts on the first one, and the operator re-runs it
/// from the beginning after fixing the cause.
#[derive(Clone, Copy, Debug, PartialEq, Eq, Structural)]
pub enum ErrorKind {
    /// The seed descriptor or the identity credential is missing,
    /// unreadable, or does not parse into the expected shape.
    Validation,
    /// A staging step (remove, create, copy, write) failed on disk.
    Filesystem,
    /// The runtime executable could not be spawned, or its initialize
    /// run exited with a non-zero status.
    Process,
    /// The temporary bootstrap configuration could not be written out.
    Serialization,
}

impl ErrorKind {
    /// A short human-readable name for terminal messages.
    pub fn describe(&self) -> (r: &'static str)
        ensures
            *self is Validation ==> r@ == "validation error"@,
            *self is Filesystem ==> r@ == "filesystem error"@,
            *self is Process ==> r@ == "process error"@,
            *self is Serialization ==> r@ == "serialization error"@,
    {
        match self {
            ErrorKind::Validation => "validation error",
            ErrorKind::Filesystem => "filesystem error",
            ErrorKind::Process => "process error",
            ErrorKind::Serialization => "serialization error",
        }
    }
}

} // verus!
