use vstd::prelude::*;

verus! {

/// What an [`Error`] stands for.
pub enum ErrorView {
    UnexpectedNumberOfDims { expected: nat, got: nat, dims: Seq<i64> },
}

/// Why a shape could not be read as a fixed number of dimensions.
#[derive(Debug)]
pub enum Error {
    /// The shape holds `got` dimensions, listed in `dims`, where `expected`
    /// were asked for.
    UnexpectedNumberOfDims { expected: usize, got: usize, dims: Vec<i64> },
}

impl View for Error {
    type V = ErrorView;

    open spec fn view(&self) -> ErrorView {
        match self {
            Error::UnexpectedNumberOfDims { expected, got, dims } => {
                ErrorView::UnexpectedNumberOfDims {
                    expected: *expected as nat,
                    got: *got as nat,
                    dims: dims@,
                }
            },
        }
    }
}

} // verus!
