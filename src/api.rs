//! Request and response bodies of the account and repository API.
use vstd::prelude::*;

verus! {

/// Credentials offered to log in.
pub struct LoginRequest {
    pub username: String,
    pub password: String,
}

/// A new account.
pub struct RegisterRequest {
    pub username: String,
    pub password: String,
    pub email: Option<String>,
}

/// A repository to create.
pub struct CreateRepoRequest {
    pub name: String,
    pub description: Option<String>,
    pub is_public: bool,
}

/// The envelope of every API answer.
pub struct ApiResponse<T> {
    pub success: bool,
    pub message: Option<String>,
    pub data: Option<T>,
}

} // verus!
