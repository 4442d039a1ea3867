use vstd::prelude::*;

verus! {

/// Why a download or a filename derivation failed.
#[derive(Debug, Clone, Copy, PartialEq, Eq, Structural)]
pub enum Error {
    /// The download destination does not exist or is not a directory.
    NotADirectory,
    /// The URL could not be parsed.
    UrlParse,
    /// The URL parsed, but it holds no usable path segment.
    InvalidUrl,
}

impl Error {
    /// A human-readable description of the failure.
    pub fn message(&self) -> (r: &'static str)
        ensures
            self is NotADirectory ==> r@ == "Download destination must be a directory"@,
            self is UrlParse ==> r@ == "URL parse failed"@,
            self is InvalidUrl ==> r@ == "URL is invalid"@,
    {
        match self {
            Error::NotADirectory => "Download destination must be a directory",
            Error::UrlParse => "URL parse failed",
            Error::InvalidUrl => "URL is invalid",
        }
    }
}

} // verus!
