//! The error taxonomy shared by every layer of the client.

use vstd::prelude::*;

verus! {

/// An error of the JSON codec, carried through unopened.
#[verifier::external_type_specification]
#[verifier::external_body]
pub struct ExJsonError(serde_json::Error);

/// Which of the two credentials a header is derived from.
#[derive(Clone, Copy, Debug, PartialEq, Eq, Structural)]
pub enum TokenKind {
    Access,
    Refresh,
}

impl TokenKind {
    /// The kind selected by a "use the refresh token" flag.
    pub open spec fn of(refresh: bool) -> TokenKind {
        if refresh {
            TokenKind::Refresh
        } else {
            TokenKind::Access
        }
    }

    /// The kind selected by a "use the refresh token" flag.
    pub fn from_flag(refresh: bool) -> (kind: TokenKind)
        ensures
            kind == TokenKind::of(refresh),
    {
        if refresh {
            TokenKind::Refresh
        } else {
            TokenKind::Access
        }
    }

    /// The lower-case name used in messages.
    pub fn name(&self) -> (name: &'static str)
        ensures
            name@ == (if *self == TokenKind::Refresh {
                "refresh"@
            } else {
                "access"@
            }),
    {
        match self {
            TokenKind::Refresh => "refresh",
            TokenKind::Access => "access",
        }
    }
}

/// Everything that can go wrong between a user action and its answer.
#[derive(Debug)]
pub enum AppError {
    /// A file operation failed; the text is the operating system's.
    Io(String),
    /// The request never got an answer; the text is the transport's.
    Network(String),
    /// The local record store failed; the text is the engine's.
    Database(String),
    /// The cipher refused to encrypt.
    Crypto,
    /// The token set could not be encoded or decoded.
    Serialization(serde_json::Error),
    /// Bad key size, bad nonce length, or a record that does not decrypt.
    CorruptedStore,
    /// The remote side rejected the call.
    Api { code: u16, message: String },
    /// The body of an answer was not a response envelope.
    ResponseParse { raw: String, source: serde_json::Error },
    /// Neither the cache nor the vault holds the credential asked for.
    MissingToken { kind: TokenKind },
}

impl AppError {
    pub fn api(code: u16, message: String) -> (error: Self)
        ensures
            error == (AppError::Api { code, message }),
    {
        AppError::Api { code, message }
    }

    pub fn response_parse(raw: String, source: serde_json::Error) -> (error: Self)
        ensures
            error == (AppError::ResponseParse { raw, source }),
    {
        AppError::ResponseParse { raw, source }
    }

    pub fn missing_tokens(refresh: bool) -> (error: Self)
        ensures
            error == (AppError::MissingToken { kind: TokenKind::of(refresh) }),
    {
        AppError::MissingToken { kind: TokenKind::from_flag(refresh) }
    }

    pub fn corrupted_store() -> (error: Self)
        ensures
            error == AppError::CorruptedStore,
    {
        AppError::CorruptedStore
    }
}

} // verus!
