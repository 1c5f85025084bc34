//! What can go wrong when a key or a signature is decoded or checked.

use vstd::prelude::*;
use blst::BLST_ERROR;

verus! {

/// The status code of the curve library, with its variants.
#[verifier::external_type_specification]
pub struct ExBlstError(BLST_ERROR);

/// The three ways in which a verification can fail.
#[derive(Clone, Copy, Debug, PartialEq, Eq, Structural)]
pub enum ErrorKind {
    /// The bytes are no encoding of a curve point: wrong length or form.
    MalformedEncoding,
    /// The bytes decode, but the point is not a valid member of its group.
    InvalidPoint,
    /// Key and signature decode, and the signature does not match.
    CryptographicMismatch,
}

/// A failure reported by the curve library.
#[derive(Clone, Copy, Debug, PartialEq, Eq, Structural)]
pub enum BlstErrorWrapper {
    BlstBadEncoding,
    BlstPointNotOnCurve,
    BlstPointNotInGroup,
    BlstAggrTypeMismatch,
    BlstVerifyFail,
    BlstPkIsInfinity,
    BlstBadScalar,
}

impl BlstErrorWrapper {
    /// The failure that a status code other than success stands for.
    pub open spec fn of_status(status: BLST_ERROR) -> BlstErrorWrapper
        recommends
            !(status is BLST_SUCCESS),
    {
        match status {
            BLST_ERROR::BLST_BAD_ENCODING => BlstErrorWrapper::BlstBadEncoding,
            BLST_ERROR::BLST_POINT_NOT_ON_CURVE => BlstErrorWrapper::BlstPointNotOnCurve,
            BLST_ERROR::BLST_POINT_NOT_IN_GROUP => BlstErrorWrapper::BlstPointNotInGroup,
            BLST_ERROR::BLST_AGGR_TYPE_MISMATCH => BlstErrorWrapper::BlstAggrTypeMismatch,
            BLST_ERROR::BLST_PK_IS_INFINITY => BlstErrorWrapper::BlstPkIsInfinity,
            BLST_ERROR::BLST_BAD_SCALAR => BlstErrorWrapper::BlstBadScalar,
            _ => BlstErrorWrapper::BlstVerifyFail,
        }
    }

    /// Translates a status code of the curve library. Success is no failure
    /// and is left out.
    pub fn from_status(status: BLST_ERROR) -> (error: BlstErrorWrapper)
        requires
            !(status is BLST_SUCCESS),
        ensures
            error == Self::of_status(status),
    {
        match status {
            BLST_ERROR::BLST_SUCCESS => BlstErrorWrapper::BlstVerifyFail,
            BLST_ERROR::BLST_BAD_ENCODING => BlstErrorWrapper::BlstBadEncoding,
            BLST_ERROR::BLST_POINT_NOT_ON_CURVE => BlstErrorWrapper::BlstPointNotOnCurve,
            BLST_ERROR::BLST_POINT_NOT_IN_GROUP => BlstErrorWrapper::BlstPointNotInGroup,
            BLST_ERROR::BLST_AGGR_TYPE_MISMATCH => BlstErrorWrapper::BlstAggrTypeMismatch,
            BLST_ERROR::BLST_VERIFY_FAIL => BlstErrorWrapper::BlstVerifyFail,
            BLST_ERROR::BLST_PK_IS_INFINITY => BlstErrorWrapper::BlstPkIsInfinity,
            BLST_ERROR::BLST_BAD_SCALAR => BlstErrorWrapper::BlstBadScalar,
        }
    }

    /// The kind of this failure.
    pub open spec fn kind_spec(self) -> ErrorKind {
        match self {
            BlstErrorWrapper::BlstBadEncoding => ErrorKind::MalformedEncoding,
            BlstErrorWrapper::BlstAggrTypeMismatch => ErrorKind::MalformedEncoding,
            BlstErrorWrapper::BlstBadScalar => ErrorKind::MalformedEncoding,
            BlstErrorWrapper::BlstPointNotOnCurve => ErrorKind::InvalidPoint,
            BlstErrorWrapper::BlstPointNotInGroup => ErrorKind::InvalidPoint,
            BlstErrorWrapper::BlstPkIsInfinity => ErrorKind::InvalidPoint,
            BlstErrorWrapper::BlstVerifyFail => ErrorKind::CryptographicMismatch,
        }
    }

    /// Sorts the failure into one of the three kinds: a bad encoding, a point
    /// that is not valid, or a signature that does not match.
    pub fn kind(&self) -> (kind: ErrorKind)
        ensures
            kind == self.kind_spec(),
    {
        match self {
            BlstErrorWrapper::BlstBadEncoding => ErrorKind::MalformedEncoding,
            BlstErrorWrapper::BlstAggrTypeMismatch => ErrorKind::MalformedEncoding,
            BlstErrorWrapper::BlstBadScalar => ErrorKind::MalformedEncoding,
            BlstErrorWrapper::BlstPointNotOnCurve => ErrorKind::InvalidPoint,
            BlstErrorWrapper::BlstPointNotInGroup => ErrorKind::InvalidPoint,
            BlstErrorWrapper::BlstPkIsInfinity => ErrorKind::InvalidPoint,
            BlstErrorWrapper::BlstVerifyFail => ErrorKind::CryptographicMismatch,
        }
    }
}

} // verus!
