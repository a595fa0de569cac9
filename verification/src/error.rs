use vstd::prelude::*;

use crate::dtype::DType;
use crate::shape::Shape;

verus! {

/// The CUDA driver's error code, carried through unchanged.
#[verifier::external_type_specification]
#[verifier::external_body]
pub struct ExDriverError(cudarc::driver::DriverError);

#[allow(inconsistent_fields)]
/// Errors of tensor creation, shape checking and kernel launches.
#[derive(Debug)]
pub enum Error {
    Cuda(cudarc::driver::DriverError),
    ElementCountOverflow(Shape),
    ElementCountMismatch { shape: Shape, expected: usize, actual: usize },
    ShapeMismatch { expected: Shape, actual: Shape },
    RankMismatch { expected: usize, actual: usize, shape: Shape },
    DTypeMismatch { expected: DType, actual: DType },
    DeviceMismatch { expected: usize, actual: usize },
    InvalidDim { dim: usize, reason: &'static str },
    NonContiguous,
    KernelElementLimit { actual: usize, max: usize },
    UnsupportedDType { dtype: DType },
}

#[allow(inconsistent_fields)]
/// An [`Error`] with every shape taken by its dimensions and every text by its characters.
pub enum ErrorView {
    Cuda(cudarc::driver::DriverError),
    ElementCountOverflow(Seq<usize>),
    ElementCountMismatch { shape: Seq<usize>, expected: usize, actual: usize },
    ShapeMismatch { expected: Seq<usize>, actual: Seq<usize> },
    RankMismatch { expected: usize, actual: usize, shape: Seq<usize> },
    DTypeMismatch { expected: DType, actual: DType },
    DeviceMismatch { expected: usize, actual: usize },
    InvalidDim { dim: usize, reason: Seq<char> },
    NonContiguous,
    KernelElementLimit { actual: usize, max: usize },
    UnsupportedDType { dtype: DType },
}

impl View for Error {
    type V = ErrorView;

    open spec fn view(&self) -> ErrorView {
        match self {
            Error::Cuda(e) => ErrorView::Cuda(*e),
            Error::ElementCountOverflow(s) => ErrorView::ElementCountOverflow(s@),
            Error::ElementCountMismatch { shape, expected, actual } => ErrorView::ElementCountMismatch {
                shape: shape@,
                expected: *expected,
                actual: *actual,
            },
            Error::ShapeMismatch { expected, actual } => ErrorView::ShapeMismatch {
                expected: expected@,
                actual: actual@,
            },
            Error::RankMismatch { expected, actual, shape } => ErrorView::RankMismatch {
                expected: *expected,
                actual: *actual,
                shape: shape@,
            },
            Error::DTypeMismatch { expected, actual } => ErrorView::DTypeMismatch {
                expected: *expected,
                actual: *actual,
            },
            Error::DeviceMismatch { expected, actual } => ErrorView::DeviceMismatch {
                expected: *expected,
                actual: *actual,
            },
            Error::InvalidDim { dim, reason } => ErrorView::InvalidDim { dim: *dim, reason: reason@ },
            Error::NonContiguous => ErrorView::NonContiguous,
            Error::KernelElementLimit { actual, max } => ErrorView::KernelElementLimit {
                actual: *actual,
                max: *max,
            },
            Error::UnsupportedDType { dtype } => ErrorView::UnsupportedDType { dtype: *dtype },
        }
    }
}

/// `r` is an error whose view is `v`.
pub open spec fn fails_with<T>(r: Result<T, Error>, v: ErrorView) -> bool {
    match r {
        Ok(_) => false,
        Err(e) => e@ == v,
    }
}

/// The error view of an outcome, `None` for success.
pub open spec fn outcome<T>(r: Result<T, Error>) -> Option<ErrorView> {
    match r {
        Ok(_) => None,
        Err(e) => Some(e@),
    }
}

/// The failure of a check run first, or else that of the check run after it.
pub open spec fn first_of(a: Option<ErrorView>, b: Option<ErrorView>) -> Option<ErrorView> {
    if a is Some {
        a
    } else {
        b
    }
}

impl From<cudarc::driver::DriverError> for Error {
    fn from(value: cudarc::driver::DriverError) -> (r: Self) {
        Error::Cuda(value)
    }
}

impl vstd::std_specs::convert::FromSpecImpl<cudarc::driver::DriverError> for Error {
    open spec fn obeys_from_spec() -> bool {
        true
    }

    open spec fn from_spec(value: cudarc::driver::DriverError) -> Error {
        Error::Cuda(value)
    }
}

} // verus!
