use vstd::prelude::*;

verus! {

/// The spatial relation that a test on a prepared geometry decides.
#[derive(Clone, Copy, Debug, PartialEq, Eq, Hash, Structural)]
pub enum PredicateType {
    PreparedContains,
    PreparedContainsProperly,
    PreparedCoveredBy,
    PreparedCovers,
    PreparedCrosses,
    PreparedDisjoint,
    PreparedIntersects,
    PreparedOverlaps,
    PreparedTouches,
    PreparedWithin,
}

/// What can go wrong at the boundary with the engine.
#[derive(Debug, PartialEq, Eq)]
pub enum Error {
    /// The engine handed back a null handle; the text names the constructor
    /// that received it.
    NoConstructionFromNullPtr(String),
    /// The engine could not decide a relation; the fields are the relation and
    /// the code that the engine returned.
    GeosFunctionError(PredicateType, i32),
}

pub type GResult<T> = Result<T, Error>;

/// An [`Error`] with its text as a sequence of characters.
pub enum ErrorView {
    NoConstructionFromNullPtr(Seq<char>),
    GeosFunctionError(PredicateType, i32),
}

impl View for Error {
    type V = ErrorView;

    open spec fn view(&self) -> ErrorView {
        match self {
            Error::NoConstructionFromNullPtr(name) => ErrorView::NoConstructionFromNullPtr(name@),
            Error::GeosFunctionError(predicate, code) => ErrorView::GeosFunctionError(
                *predicate,
                *code,
            ),
        }
    }
}

} // verus!
