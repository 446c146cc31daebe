use vstd::prelude::*;

verus! {

/// The single error channel of the library.
///
/// Every failure is reported through one of these variants, each carrying a
/// human-readable description.  The library never retries and never partially
/// completes: an upload either fully succeeds or fails with one of these.
#[derive(Debug)]
pub enum UploadError {
    /// A required credential was missing or unusable at startup.
    Configuration(String),
    /// The system clock reported a time before the Unix epoch.
    Clock(String),
    /// The network transport failed while sending or receiving.
    Transport(String),
    /// The provider's response body could not be decoded.
    Decode(String),
}

impl UploadError {
    /// The description carried by this error, whatever its variant.
    pub open spec fn spec_message(&self) -> Seq<char> {
        match self {
            UploadError::Configuration(m) => m@,
            UploadError::Clock(m) => m@,
            UploadError::Transport(m) => m@,
            UploadError::Decode(m) => m@,
        }
    }

    /// Returns the human-readable description carried by this error.
    pub fn message(&self) -> (r: &String)
        ensures
            r@ == self.spec_message(),
    {
        match self {
            UploadError::Configuration(m) => m,
            UploadError::Clock(m) => m,
            UploadError::Transport(m) => m,
            UploadError::Decode(m) => m,
        }
    }
}

} // verus!
