use vstd::prelude::*;
use vstd::string::*;

verus! {

/// Why a download failed.
#[derive(Debug, Clone, PartialEq, Eq)]
pub enum Error {
    /// The destination file could not be created or written.
    Io(String),
    /// The request failed, or reading the response body failed.
    Net(String),
    /// Free text supplied by a caller; the download itself never produces it.
    Misc(String),
}

impl Error {
    /// The text that `message` returns.
    pub open spec fn message_spec(&self) -> Seq<char> {
        match self {
            Error::Io(cause) => "IO error: "@ + cause@,
            Error::Net(cause) => "Network error: "@ + cause@,
            Error::Misc(cause) => "Miscelanious Error: "@ + cause@,
        }
    }

    /// A readable description: the kind of failure followed by its cause.
    pub fn message(&self) -> (r: String)
        ensures
            r@ == self.message_spec(),
    {
        match self {
            Error::Io(cause) => String::from_str("IO error: ").concat(cause.as_str()),
            Error::Net(cause) => String::from_str("Network error: ").concat(cause.as_str()),
            Error::Misc(cause) => String::from_str("Miscelanious Error: ").concat(cause.as_str()),
        }
    }
}

} // verus!
