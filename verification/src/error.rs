//! What can go wrong in an install, as far as this crate decides it. The
//! failures of the network and of the file system are the caller's own.

use vstd::prelude::*;

verus! {

/// Every failure ends the call it occurs in; nothing is retried or undone.
/// Each variant carries a text for the reader: what an outside crate
/// reported, or the input that was turned down.
#[derive(Debug, Clone, PartialEq, Eq)]
pub enum Error {
    /// An xz stream or the tar archive in it could not be read.
    Io(String),
    /// A zip archive could not be read.
    ZipError(String),
    /// A 7z archive could not be read: it is not read from bytes here.
    /// The archive's name is given.
    SevenZipError(String),
    /// No download fits the binary, version and platform asked for.
    Resolution(String),
    /// The archive's file name ends in no known suffix; the name is given.
    UnsupportedArchiveType(String),
    /// A step of the install was asked for out of order; the state it was
    /// asked in is given.
    NotInitialized(String),
}

impl Error {
    /// The text that the error carries.
    pub fn message(&self) -> (m: &String)
        ensures
            m@ == self.spec_message(),
    {
        match self {
            Error::Io(m) => m,
            Error::ZipError(m) => m,
            Error::SevenZipError(m) => m,
            Error::Resolution(m) => m,
            Error::UnsupportedArchiveType(m) => m,
            Error::NotInitialized(m) => m,
        }
    }

    /// The text that the error carries.
    pub open spec fn spec_message(&self) -> Seq<char> {
        match self {
            Error::Io(m) => m@,
            Error::ZipError(m) => m@,
            Error::SevenZipError(m) => m@,
            Error::Resolution(m) => m@,
            Error::UnsupportedArchiveType(m) => m@,
            Error::NotInitialized(m) => m@,
        }
    }
}

} // verus!
