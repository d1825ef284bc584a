use vstd::prelude::*;

verus! {

/// The three precondition failures of the install/uninstall workflow:
/// the query has no registry match, the library is already recorded as
/// installed, or it is not recorded as installed.
#[derive(Clone, Copy, Debug, PartialEq, Eq, Structural)]
pub enum LibraryError {
    LibraryNotFoundError,
    LibraryInstalledError,
    LibraryNotInstalledError,
}

impl LibraryError {
    /// What `message` returns, as a mathematical value.
    pub open spec fn message_view(self) -> Seq<char> {
        match self {
            LibraryError::LibraryNotFoundError => "Library not found."@,
            LibraryError::LibraryInstalledError => "Library already installed."@,
            LibraryError::LibraryNotInstalledError => "Library is not installed."@,
        }
    }

    /// The user-visible description of the failure.
    pub fn message(&self) -> (r: String)
        ensures
            r@ == self.message_view(),
    {
        match self {
            LibraryError::LibraryNotFoundError => ("Library not found.").to_owned(),
            LibraryError::LibraryInstalledError => ("Library already installed.").to_owned(),
            LibraryError::LibraryNotInstalledError => ("Library is not installed.").to_owned(),
        }
    }
}

/// Every way an install or uninstall invocation can end short of success:
/// a registry file that is missing, a record file whose content does not
/// match the schema, one of the three precondition failures, a failed
/// fetch of the upstream source, or a failed filesystem or persist step.
#[derive(Clone, Copy, Debug, PartialEq, Eq, Structural)]
pub enum OpError {
    NotFound,
    ParseError,
    Library(LibraryError),
    FetchError,
    IoError,
}

impl OpError {
    /// What `message` returns, as a mathematical value.
    pub open spec fn message_view(self) -> Seq<char> {
        match self {
            OpError::NotFound => "File not found."@,
            OpError::ParseError => "File content does not match the expected schema."@,
            OpError::Library(e) => e.message_view(),
            OpError::FetchError => "Failed to fetch the library source."@,
            OpError::IoError => "A filesystem operation failed."@,
        }
    }

    /// The user-visible description of the failure.
    pub fn message(&self) -> (r: String)
        ensures
            r@ == self.message_view(),
    {
        match self {
            OpError::NotFound => ("File not found.").to_owned(),
            OpError::ParseError => ("File content does not match the expected schema.").to_owned(),
            OpError::Library(e) => e.message(),
            OpError::FetchError => ("Failed to fetch the library source.").to_owned(),
            OpError::IoError => ("A filesystem operation failed.").to_owned(),
        }
    }
}

} // verus!
