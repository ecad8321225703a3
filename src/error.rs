use vstd::prelude::*;

verus! {

/// Why a request could not be answered. Each one is answered with an
/// internal-error response.
#[derive(Debug, Clone, Copy, PartialEq, Eq, Structural)]
pub enum AppError {
    /// A URL built from configured or fixed text could not be formed.
    Generic,
    /// The backend could not be reached.
    RequestError,
    /// The backend's answer did not have the expected shape.
    DecodeError,
    /// A backend channel could not be turned into a lineup entry.
    TransformError,
}

} // verus!
