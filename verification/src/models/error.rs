//! What the API answers on failure.

use vstd::prelude::*;

verus! {

/// Body returned by the Codecov API on error responses.
pub struct ApiErrorResponse {
    pub detail: Option<String>,
}

} // verus!
