//! The one error type of all path operations.
use vstd::prelude::*;

verus! {

/// Why a path operation yielded no value.
///
/// The first three are refusals of the plugin's own input and are decided
/// before any call to the host is put together. `HostError` is a breach of
/// contract by the host. `FeatureMissing` says that the host never offered
/// the capability that the operation needs.
#[derive(Debug, Clone, Copy, PartialEq, Eq, Structural)]
pub enum PathError {
    /// The path to convert is not relative.
    PathNotRelative,
    /// The path to convert is not absolute.
    PathNotAbsolute,
    /// The path to convert is not encoded in UTF-8.
    PathNotUTF8,
    /// The host answered with a null pointer or with bytes that are no UTF-8.
    HostError,
    /// The host did not supply the capability.
    FeatureMissing,
}

/// A result with its value replaced by the value's view.
pub open spec fn outcome<T: View>(result: Result<T, PathError>) -> Result<T::V, PathError> {
    match result {
        Ok(value) => Ok(value@),
        Err(error) => Err(error),
    }
}

} // verus!
