//! The token set and the authorization headers derived from it.

use vstd::prelude::*;
use vstd::string::StringExecFns;
use crate::model::AuthTokensResponse;
use crate::model::default_token_type;
use crate::model::default_token_type_spec;

verus! {

/// The credentials of one signed-in user.
#[derive(Debug, PartialEq, Eq)]
pub struct Tokens {
    pub access_token: Option<String>,
    pub refresh_token: Option<String>,
    pub token_type: Option<String>,
    /// Seconds since the Unix epoch at which the access token lapses.  The
    /// type is wide enough for any clock reading plus any lifetime.
    pub expires_at: Option<i128>,
}

/// What a [`Tokens`] value holds, with every string as its characters.
pub struct TokensView {
    pub access_token: Option<Seq<char>>,
    pub refresh_token: Option<Seq<char>>,
    pub token_type: Option<Seq<char>>,
    pub expires_at: Option<int>,
}

/// The characters of an optional string.
pub open spec fn opt_chars(s: Option<String>) -> Option<Seq<char>> {
    match s {
        Some(s) => Some(s@),
        None => None,
    }
}

impl TokensView {
    /// The set that holds nothing.
    pub open spec fn empty() -> TokensView {
        TokensView { access_token: None, refresh_token: None, token_type: None, expires_at: None }
    }

    /// Neither credential is present; such a set is never written to disk.
    pub open spec fn is_blank(self) -> bool {
        self.access_token is None && self.refresh_token is None
    }

    /// The credential of the requested kind.
    pub open spec fn token(self, use_refresh: bool) -> Option<Seq<char>> {
        if use_refresh {
            self.refresh_token
        } else {
            self.access_token
        }
    }

    /// The scheme that prefixes a header: the stored one, else the default.
    pub open spec fn scheme(self) -> Seq<char> {
        match self.token_type {
            Some(t) => t,
            None => default_token_type_spec(),
        }
    }

    /// The authorization value `"<scheme> <token>"`, present exactly when
    /// the credential of the requested kind is.
    pub open spec fn header(self, use_refresh: bool) -> Option<Seq<char>> {
        match self.token(use_refresh) {
            Some(token) => Some(self.scheme() + seq![' '] + token),
            None => None,
        }
    }

    /// The set that an answer of the identity endpoints stands for when it
    /// is received at clock reading `now`.
    pub open spec fn issued(
        access_token: Seq<char>,
        refresh_token: Seq<char>,
        token_type: Seq<char>,
        expires_in: int,
        now: int,
    ) -> TokensView {
        TokensView {
            access_token: Some(access_token),
            refresh_token: Some(refresh_token),
            token_type: Some(token_type),
            expires_at: if expires_in > 0 {
                Some(now + expires_in)
            } else {
                None
            },
        }
    }
}

impl View for Tokens {
    type V = TokensView;

    open spec fn view(&self) -> TokensView {
        TokensView {
            access_token: opt_chars(self.access_token),
            refresh_token: opt_chars(self.refresh_token),
            token_type: opt_chars(self.token_type),
            expires_at: match self.expires_at {
                Some(t) => Some(t as int),
                None => None,
            },
        }
    }
}

/// Reads the system clock with `SystemTime::now`, converts the reading
/// with chrono's `DateTime::<Utc>::from`, which also takes a clock that
/// reads before the epoch, and returns its `timestamp()`.  Nothing is
/// claimed of the reading.
#[verifier::external_body]
pub(crate) fn unix_now() -> i64 {
    chrono::DateTime::<chrono::Utc>::from(std::time::SystemTime::now()).timestamp()
}

/// A copy of an optional string.
pub fn clone_opt_string(s: &Option<String>) -> (copy: Option<String>)
    ensures
        opt_chars(copy) == opt_chars(*s),
{
    match s {
        Some(s) => Some(s.clone()),
        None => None,
    }
}

impl Default for Tokens {
    fn default() -> (tokens: Tokens)
        ensures
            tokens@ == TokensView::empty(),
    {
        Tokens { access_token: None, refresh_token: None, token_type: None, expires_at: None }
    }
}

impl Clone for Tokens {
    fn clone(&self) -> (copy: Tokens)
        ensures
            copy@ == self@,
    {
        Tokens {
            access_token: clone_opt_string(&self.access_token),
            refresh_token: clone_opt_string(&self.refresh_token),
            token_type: clone_opt_string(&self.token_type),
            expires_at: self.expires_at,
        }
    }
}

impl Tokens {
    /// Whether neither credential is present.
    pub fn is_blank(&self) -> (blank: bool)
        ensures
            blank == self@.is_blank(),
    {
        self.access_token.is_none() && self.refresh_token.is_none()
    }

    /// The authorization value for the requested credential, or `None`
    /// when that credential is absent.
    pub fn header_value(&self, use_refresh: bool) -> (header: Option<String>)
        ensures
            opt_chars(header) == self@.header(use_refresh),
    {
        let token = if use_refresh {
            &self.refresh_token
        } else {
            &self.access_token
        };
        match token {
            None => None,
            Some(token) => {
                let mut header = match &self.token_type {
                    Some(scheme) => scheme.clone(),
                    None => default_token_type(),
                };
                proof {
                    reveal_strlit(" ");
                    assert(" "@ =~= seq![' ']);
                }
                header.append(" ");
                header.append(token.as_str());
                Some(header)
            },
        }
    }

    /// The token set that `value` stands for when received at clock
    /// reading `now` (seconds since the Unix epoch): both credentials and
    /// the scheme are taken over, and the expiry is `now + expires_in`
    /// when the server reported a positive lifetime, absent otherwise.
    pub fn from_response_at(value: AuthTokensResponse, now: i64) -> (tokens: Tokens)
        ensures
            tokens@ == TokensView::issued(
                value.access_token@,
                value.refresh_token@,
                value.token_type@,
                value.expires_in as int,
                now as int,
            ),
    {
        let expires_at: Option<i128> = if value.expires_in > 0 {
            let lifetime: i128 = value.expires_in as i128;
            let start: i128 = now as i128;
            Some(start + lifetime)
        } else {
            None
        };
        Tokens {
            access_token: Some(value.access_token),
            refresh_token: Some(value.refresh_token),
            token_type: Some(value.token_type),
            expires_at,
        }
    }

    /// The token set that `value` stands for when received now.  Whatever
    /// the clock says, the credentials and the scheme are those of `value`,
    /// and an expiry is kept exactly when the lifetime is positive.
    pub fn from(value: AuthTokensResponse) -> (tokens: Tokens)
        ensures
            exists|now: int|
                i64::MIN <= now <= i64::MAX && tokens@ == #[trigger] TokensView::issued(
                    value.access_token@,
                    value.refresh_token@,
                    value.token_type@,
                    value.expires_in as int,
                    now,
                ),
    {
        let now = unix_now();
        Tokens::from_response_at(value, now)
    }
}

/// A set that holds only a refresh token yields no access header, and its
/// refresh header is the scheme (the default one when none is stored), a
/// space, and the refresh token.
pub proof fn law_refresh_only_headers(tokens: TokensView)
    requires
        tokens.access_token is None,
        tokens.refresh_token is Some,
    ensures
        tokens.header(false) is None,
        tokens.header(true) == Some(tokens.scheme() + seq![' '] + tokens.refresh_token->0),
        tokens.token_type is None ==> tokens.header(true) == Some(
            "Bearer"@ + " "@ + tokens.refresh_token->0,
        ),
{
    reveal_strlit(" ");
    assert(" "@ =~= seq![' ']);
}

} // verus!
