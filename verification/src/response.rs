use vstd::prelude::*;

verus! {

/// Standard successful response wrapper for all operations.
pub struct ApiResponse<T> {
    pub success: bool,
    pub data: T,
}

/// Standard error response for all operations.
pub struct ErrorResponse {
    pub success: bool,
    pub error: String,
}

} // verus!
