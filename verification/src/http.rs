//! Response shapes shared with the HTTP helper layer.  The transport
//! itself lives outside the engine; only these carriers cross the
//! boundary.

use vstd::prelude::*;

verus! {

/// A generic API response envelope.
#[derive(Debug, Clone)]
pub struct ApiResponse<T> {
    pub success: bool,
    pub code: u32,
    pub message: Option<String>,
    pub data: Option<T>,
}

/// An OAuth token grant.
#[derive(Debug, Clone)]
pub struct TokenResponse {
    pub access_token: String,
    pub token_type: String,
    pub expires_in: u64,
    pub refresh_token: Option<String>,
    pub scope: Option<String>,
}

impl TokenResponse {
    /// A grant is usable only while it carries a non-empty token.
    pub fn has_token(&self) -> (r: bool)
        ensures
            r == (self.access_token@.len() > 0),
    {
        self.access_token.as_str().unicode_len() > 0
    }
}

} // verus!
