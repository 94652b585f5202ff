//! The one way in which routing a query fails.

use vstd::prelude::*;
use vstd::string::*;

verus! {

/// Why no URL came out.
#[derive(Debug, PartialEq, Eq)]
pub enum Error {
    /// A text put together for a destination is no valid URL; `input` is that text.
    UrlBuildError { input: String },
}

impl Error {
    /// The text that was refused.
    pub open spec fn refused(&self) -> Seq<char> {
        match self {
            Error::UrlBuildError { input } => input@,
        }
    }

    /// The text that was refused.
    pub fn input(&self) -> (s: &str)
        ensures
            s@ == self.refused(),
    {
        match self {
            Error::UrlBuildError { input } => input.as_str(),
        }
    }

    /// A sentence for logs and error pages.
    pub fn message(&self) -> (s: String)
        ensures
            s@ == "Error building url from: "@ + self.refused(),
    {
        String::from_str("Error building url from: ").concat(self.input())
    }
}

} // verus!
