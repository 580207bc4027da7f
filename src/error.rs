use vstd::prelude::*;

verus! {

/// A failure decided by the copy engine itself. Failures of the filesystem
/// calls are reported by the caller that made them.
#[derive(Clone, Copy, Debug, PartialEq, Eq, Structural)]
pub enum CopyError {
    /// Source and destination are the same path string.
    SamePath,
    /// The source is a directory and recursion was not requested.
    DirectoryWithoutRecursion,
    /// The source is a directory and the destination an existing file.
    DirectoryOntoFile,
    /// The destination file exists and neither force nor resume was requested.
    DestinationExists,
    /// A file transfer ended with a byte count other than the source size.
    Incomplete { expected: u64, transferred: u64 },
    /// The whole operation transferred a byte count other than its total.
    TotalMismatch { transferred: u64, total: u64 },
}

/// The broad class of a failure, as error kinds of the platform group them.
#[derive(Clone, Copy, Debug, PartialEq, Eq, Structural)]
pub enum ErrorClass {
    InvalidInput,
    AlreadyExists,
    Other,
}

impl CopyError {
    pub open spec fn spec_class(self) -> ErrorClass {
        match self {
            CopyError::DirectoryWithoutRecursion => ErrorClass::InvalidInput,
            CopyError::DestinationExists => ErrorClass::AlreadyExists,
            _ => ErrorClass::Other,
        }
    }

    /// The class of this failure: a directory without recursion is invalid
    /// input, an existing destination is "already exists", the rest other.
    pub fn class(&self) -> (r: ErrorClass)
        ensures
            r == self.spec_class(),
    {
        match self {
            CopyError::DirectoryWithoutRecursion => ErrorClass::InvalidInput,
            CopyError::DestinationExists => ErrorClass::AlreadyExists,
            _ => ErrorClass::Other,
        }
    }
}

} // verus!
