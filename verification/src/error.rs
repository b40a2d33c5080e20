//! The closed error taxonomy of the pipeline.
//!
//! A run can fail in one of two places: draining the function listing, or
//! draining the tag-mapping listing. Each remote failure is reduced to what
//! the pipeline actually reads of it: whether it is the one signal that its
//! retry predicate accepts, and the message carried along for display.

use vstd::prelude::*;

use crate::retry::Retryable;

verus! {

/// A failure of the function-listing API. The listing's retry predicate
/// accepts exactly the remote's throttling signal.
#[derive(Debug, PartialEq)]
pub enum ListingError {
    /// The remote's "too many requests" signal: the one retryable failure.
    TooManyRequests(String),
    /// Any other failure of the function listing, kept as its message.
    Other(String),
}

/// A failure of the tag-listing API. The tagging retry predicate accepts
/// exactly the remote's "invalid parameter" signal.
#[derive(Debug, PartialEq)]
pub enum TaggingError {
    /// The remote's "invalid parameter" signal: the one retryable failure.
    InvalidParameter(String),
    /// Any other failure of the tag listing, kept as its message.
    Other(String),
}

/// Failure types of a whole run, tagged with the source listing.
#[derive(Debug, PartialEq)]
pub enum Error {
    Listing(ListingError),
    Tags(TaggingError),
}

impl ListingError {
    /// The message carried by the failure.
    pub open spec fn spec_message(self) -> Seq<char> {
        match self {
            ListingError::TooManyRequests(m) => m@,
            ListingError::Other(m) => m@,
        }
    }

    pub fn message(&self) -> (r: &String)
        ensures
            r@ == self.spec_message(),
    {
        match self {
            ListingError::TooManyRequests(m) => m,
            ListingError::Other(m) => m,
        }
    }
}

impl TaggingError {
    /// The message carried by the failure.
    pub open spec fn spec_message(self) -> Seq<char> {
        match self {
            TaggingError::InvalidParameter(m) => m@,
            TaggingError::Other(m) => m@,
        }
    }

    pub fn message(&self) -> (r: &String)
        ensures
            r@ == self.spec_message(),
    {
        match self {
            TaggingError::InvalidParameter(m) => m,
            TaggingError::Other(m) => m,
        }
    }
}

impl Retryable for ListingError {
    open spec fn retryable_spec(&self) -> bool {
        self is TooManyRequests
    }

    fn is_retryable(&self) -> (b: bool) {
        match self {
            ListingError::TooManyRequests(_) => true,
            ListingError::Other(_) => false,
        }
    }
}

impl Retryable for TaggingError {
    open spec fn retryable_spec(&self) -> bool {
        self is InvalidParameter
    }

    fn is_retryable(&self) -> (b: bool) {
        match self {
            TaggingError::InvalidParameter(_) => true,
            TaggingError::Other(_) => false,
        }
    }
}

impl Error {
    /// The message of the underlying cause, whichever listing it came from.
    pub open spec fn spec_message(self) -> Seq<char> {
        match self {
            Error::Listing(e) => e.spec_message(),
            Error::Tags(e) => e.spec_message(),
        }
    }

    pub fn message(&self) -> (r: &String)
        ensures
            r@ == self.spec_message(),
    {
        match self {
            Error::Listing(e) => e.message(),
            Error::Tags(e) => e.message(),
        }
    }
}

impl From<ListingError> for Error {
    fn from(err: ListingError) -> (r: Self) {
        Error::Listing(err)
    }
}

impl vstd::std_specs::convert::FromSpecImpl<ListingError> for Error {
    open spec fn obeys_from_spec() -> bool {
        true
    }

    open spec fn from_spec(err: ListingError) -> Self {
        Error::Listing(err)
    }
}

impl From<TaggingError> for Error {
    fn from(err: TaggingError) -> (r: Self) {
        Error::Tags(err)
    }
}

impl vstd::std_specs::convert::FromSpecImpl<TaggingError> for Error {
    open spec fn obeys_from_spec() -> bool {
        true
    }

    open spec fn from_spec(err: TaggingError) -> Self {
        Error::Tags(err)
    }
}

} // verus!
