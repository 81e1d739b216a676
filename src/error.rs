use vstd::prelude::*;

verus! {

/// Why a value was rejected or a request could not be assembled.
#[derive(Debug, Clone, Copy, PartialEq, Eq, Structural)]
pub enum IndexnowError {
    /// An endpoint, key-file or content URL that does not parse, is not `http`
    /// or `https`, carries a forbidden query, or lies outside a batch's scope.
    InvalidUrl,
    /// A key that is not 8 to 128 ASCII letters, digits or hyphens.
    InvalidKey,
    /// The wire request could not be assembled from valid parts.
    RequestBuildError,
}

} // verus!
