//! The crate-level error, wrapping each component's own error type so
//! that one `Result` can carry any of them.

use vstd::prelude::*;

verus! {

/// Any error of the crate: matrix construction and access, profile
/// construction, or aligner construction and result access.
#[derive(Debug, Clone, PartialEq)]
pub enum Error {
    MatrixError(crate::matrix::Error),
    ProfileError(crate::profile::Error),
    AlignmentError(crate::aligner::Error),
}

impl From<crate::matrix::Error> for Error {
    fn from(e: crate::matrix::Error) -> (r: Error) {
        Error::MatrixError(e)
    }
}

impl vstd::std_specs::convert::FromSpecImpl<crate::matrix::Error> for Error {
    open spec fn obeys_from_spec() -> bool {
        true
    }

    open spec fn from_spec(e: crate::matrix::Error) -> Error {
        Error::MatrixError(e)
    }
}

impl From<crate::profile::Error> for Error {
    fn from(e: crate::profile::Error) -> (r: Error) {
        Error::ProfileError(e)
    }
}

impl vstd::std_specs::convert::FromSpecImpl<crate::profile::Error> for Error {
    open spec fn obeys_from_spec() -> bool {
        true
    }

    open spec fn from_spec(e: crate::profile::Error) -> Error {
        Error::ProfileError(e)
    }
}

impl From<crate::aligner::Error> for Error {
    fn from(e: crate::aligner::Error) -> (r: Error) {
        Error::AlignmentError(e)
    }
}

impl vstd::std_specs::convert::FromSpecImpl<crate::aligner::Error> for Error {
    open spec fn obeys_from_spec() -> bool {
        true
    }

    open spec fn from_spec(e: crate::aligner::Error) -> Error {
        Error::AlignmentError(e)
    }
}

} // verus!
