use crate::uvd::data::Manifest;
use vstd::prelude::*;

verus! {

/// The hub's answer to a search.
pub struct SearchResponse {
    pub results: Vec<Manifest>,
    pub total_count: usize,
}

/// The credentials sent to log in to the hub.
pub struct LoginRequest {
    pub username: String,
    pub token: String,
}

/// The hub's answer to a login.
pub struct LoginResponse {
    pub success: bool,
    pub session_id: Option<String>,
    pub message: String,
}

} // verus!
