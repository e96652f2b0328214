//! Payloads exchanged with the remote API and the uniform response envelope.

use vstd::prelude::*;
use vstd::string::StringExecFns;
use crate::text::trim;
use crate::text::trimmed;

verus! {

/// Credentials sent to the login endpoint.
#[derive(Debug)]
pub struct LoginRequest {
    pub username: String,
    pub password: String,
}

impl LoginRequest {
    /// Copies both credentials into a fresh request.
    pub fn new(username: &str, password: &str) -> (request: Self)
        ensures
            request.username@ == username@,
            request.password@ == password@,
    {
        Self { username: String::from_str(username), password: String::from_str(password) }
    }
}

/// Account details sent to the registration endpoint.
#[derive(Debug)]
pub struct RegisterRequest {
    pub username: String,
    pub email: String,
    pub password: String,
}

/// Token material returned by the login and refresh endpoints.
#[derive(Debug)]
pub struct AuthTokensResponse {
    pub access_token: String,
    pub refresh_token: String,
    pub token_type: String,
    /// Lifetime of the access token in seconds; zero means "not tracked".
    pub expires_in: u64,
}

/// The scheme assumed when the server names none.
pub open spec fn default_token_type_spec() -> Seq<char> {
    "Bearer"@
}

/// The scheme assumed when the server names none.
pub fn default_token_type() -> (scheme: String)
    ensures
        scheme@ == default_token_type_spec(),
{
    String::from_str("Bearer")
}

/// Uniform wrapper around every answer of the remote API.
#[derive(Debug)]
pub struct ApiResponse<T> {
    pub code: u16,
    pub message: String,
    pub success: bool,
    pub data: Option<T>,
}

impl<T> ApiResponse<T> {
    pub fn new(code: u16, message: String, success: bool, data: Option<T>) -> (response: Self)
        ensures
            response.code == code,
            response.message == message,
            response.success == success,
            response.data == data,
    {
        ApiResponse { code, message, success, data }
    }
}

#[derive(Clone, Debug)]
pub struct User {
    pub id: u32,
    pub username: String,
    pub email: String,
    pub phone: String,
    pub address: String,
    pub is_admin: bool,
}

#[derive(Clone, Debug)]
pub struct PartialUser {
    pub id: u32,
    pub username: String,
    pub email: String,
    pub is_admin: bool,
}

#[derive(Debug)]
pub struct UpdateUserPayload {
    pub username: String,
    pub email: String,
    pub phone: String,
    pub address: String,
}

#[derive(Clone, Debug)]
pub struct Seller {
    pub id: u32,
    pub username: String,
    pub email: String,
    pub phone: Option<String>,
    pub address: Option<String>,
}

#[derive(Clone, Debug)]
pub struct Product {
    pub id: u32,
    pub name: String,
    pub description: String,
    pub price: i32,
    pub seller: Option<Seller>,
}

#[derive(Debug)]
pub struct ProductPayload {
    pub name: String,
    pub description: String,
    pub price: i32,
}

#[derive(Default, Debug)]
pub struct ProductQuery {
    pub q: Option<String>,
}

impl ProductQuery {
    /// The search term that a keyword stands for: the keyword without the
    /// white space around it, or none where nothing is left of it.
    pub open spec fn term(keyword: Option<Seq<char>>) -> Option<Seq<char>> {
        match keyword {
            Some(word) => if trimmed(word).len() == 0 {
                None
            } else {
                Some(trimmed(word))
            },
            None => None,
        }
    }

    /// The query for a keyword as the user typed it.
    pub fn for_keyword(keyword: Option<String>) -> (query: ProductQuery)
        ensures
            match ProductQuery::term(
                match keyword {
                    Some(word) => Some(word@),
                    None => None,
                },
            ) {
                Some(term) => query.q matches Some(q) && q@ == term,
                None => query.q is None,
            },
    {
        match keyword {
            Some(word) => {
                let kept = trim(word.as_str());
                if kept.is_empty() {
                    ProductQuery { q: None }
                } else {
                    ProductQuery { q: Some(String::from_str(kept)) }
                }
            },
            None => ProductQuery { q: None },
        }
    }
}

} // verus!
