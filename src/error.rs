use vstd::prelude::*;

verus! {

/// Why an operation of the library failed.
#[derive(Clone, Copy, Debug, PartialEq, Eq, Structural)]
pub enum LibraryError {
    /// The path does not resolve.
    NotFound,
    /// The file name does not carry the `flac` extension.
    InvalidFormat,
    /// The container header or its metadata framing cannot be parsed.
    FormatError,
    /// An audio frame failed to decode partway through the stream.
    DecodeError,
    /// The path exists but is not a directory.
    NotADirectory,
    /// The directory cannot be enumerated.
    IOError,
}

impl LibraryError {
    /// A human-readable description of the error.
    pub fn message(&self) -> (r: String)
        ensures
            *self == LibraryError::NotFound ==> r@ == "file or directory not found"@,
            *self == LibraryError::InvalidFormat ==> r@ == "not a FLAC file"@,
            *self == LibraryError::FormatError ==> r@ == "FLAC container could not be parsed"@,
            *self == LibraryError::DecodeError ==> r@ == "failed to read a sample"@,
            *self == LibraryError::NotADirectory ==> r@ == "path is not a directory"@,
            *self == LibraryError::IOError ==> r@ == "failed to read the directory"@,
    {
        match self {
            LibraryError::NotFound => String::from_str("file or directory not found"),
            LibraryError::InvalidFormat => String::from_str("not a FLAC file"),
            LibraryError::FormatError => String::from_str("FLAC container could not be parsed"),
            LibraryError::DecodeError => String::from_str("failed to read a sample"),
            LibraryError::NotADirectory => String::from_str("path is not a directory"),
            LibraryError::IOError => String::from_str("failed to read the directory"),
        }
    }
}

} // verus!
