//! The client's token state: the in-memory cache in front of the vault, the
//! headers derived from it, and what login, refresh and logout do to both.
//!
//! The caller owns the disk and the network.  Where a function needs the
//! store content it takes the record as it was read; where it changes the
//! store it returns the [`StoreAction`] to carry out.

use vstd::prelude::*;
use vstd::string::StringExecFns;
use crate::error::AppError;
use crate::error::TokenKind;
use crate::gateway::is_success;
use crate::gateway::is_success_status;
use crate::model::ApiResponse;
use crate::model::AuthTokensResponse;
use crate::text::strip_trailing_slashes;
use crate::text::without_trailing_slashes;
use crate::token::unix_now;
use crate::token::Tokens;
use crate::token::TokensView;
use crate::vault::EncryptedRecord;
use crate::vault::Loaded;
use crate::vault::StoreAction;
use crate::vault::TokenStore;

verus! {

/// New tokens that are sealed but not yet written.  The caller carries
/// out `action`, then commits `tokens` to the cache and hands `envelope`
/// on.
pub struct Pending {
    /// The answer for the caller, without the token material.
    pub envelope: ApiResponse<()>,
    /// The set to commit once the record is written.
    pub tokens: Tokens,
    /// What to do to the store.
    pub action: StoreAction,
}

/// A refresh that failed, after which no credentials are left.
pub struct Rejected {
    /// Why the refresh failed.
    pub error: AppError,
    /// What to do to the store: always `Delete`.
    pub action: StoreAction,
}

/// The token state of one client: the endpoint it talks to, the cached
/// token set and the vault behind it.
pub struct Client {
    pub base_url: String,
    pub tokens: Tokens,
    pub store: TokenStore,
}

impl<T> ApiResponse<T> {
    /// The envelope itself where it carries data, else an `Api` error with
    /// the envelope's code and message.
    pub fn require_data(self) -> (checked: Result<ApiResponse<T>, AppError>)
        ensures
            match checked {
                Ok(response) => self.data is Some && response == self,
                Err(error) => self.data is None && error == (AppError::Api {
                    code: self.code,
                    message: self.message,
                }),
            },
    {
        if self.data.is_none() {
            Err(AppError::api(self.code, self.message))
        } else {
            Ok(self)
        }
    }
}

impl Client {
    /// What `get_header` leaves in the cache: the cache itself where it
    /// already yields the header, else what the vault reads as, where it
    /// reads as a token set.
    pub open spec fn cache_after(&self, use_refresh: bool, record: Option<EncryptedRecord>)
        -> TokensView {
        if self.tokens@.header(use_refresh) is Some {
            self.tokens@
        } else {
            match self.store.loads(record) {
                Loaded::Tokens(tokens) => tokens,
                _ => self.tokens@,
            }
        }
    }

    /// A client with an empty cache.
    pub fn new(base_url: String, store: TokenStore) -> (client: Client)
        ensures
            client.base_url == base_url,
            client.store == store,
            client.tokens@ == TokensView::empty(),
    {
        Client { base_url, tokens: Tokens::default(), store }
    }

    /// The address of an endpoint: the base address followed by the path
    /// without its trailing slashes.
    pub fn url(&self, path: &str) -> (url: String)
        ensures
            url@ == self.base_url@ + without_trailing_slashes(path@),
    {
        self.base_url.clone().concat(strip_trailing_slashes(path))
    }

    /// Replaces the cache by what the vault holds.  On an error the cache
    /// stays as it was.
    pub fn reload_tokens_from_store(&mut self, record: &Option<EncryptedRecord>) -> (done: Result<
        (),
        AppError,
    >)
        ensures
            final(self).base_url == old(self).base_url,
            final(self).store == old(self).store,
            match old(self).store.loads(*record) {
                Loaded::Tokens(stored) => done is Ok && final(self).tokens@ == stored,
                Loaded::Corrupted => {
                    &&& final(self).tokens == old(self).tokens
                    &&& done matches Err(AppError::CorruptedStore)
                },
                Loaded::Undecodable => {
                    &&& final(self).tokens == old(self).tokens
                    &&& done matches Err(AppError::Serialization(_))
                },
            },
    {
        match self.store.load(record) {
            Ok(tokens) => {
                self.tokens = tokens;
                Ok(())
            },
            Err(error) => Err(error),
        }
    }

    /// What asking for a header comes to, from the client `before` to the
    /// client `self`, when the store holds `record`.
    ///
    /// Where the cache of `before` yields the header, that is the answer
    /// and nothing changes.  Otherwise the vault is read.  A vault that
    /// reads as a token set replaces the cache, and the answer is the
    /// header derived from it, or `MissingToken` for the kind asked for
    /// where there is still none.  A vault that does not read gives its own
    /// error (`CorruptedStore`, `Serialization`) and leaves the cache alone.
    pub open spec fn got_header(
        &self,
        before: Client,
        use_refresh: bool,
        record: Option<EncryptedRecord>,
        header: Result<String, AppError>,
    ) -> bool {
        &&& self.base_url == before.base_url
        &&& self.store == before.store
        &&& self.tokens@ == before.cache_after(use_refresh, record)
        &&& match before.tokens@.header(use_refresh) {
            Some(cached) => {
                &&& self.tokens == before.tokens
                &&& header matches Ok(value) && value@ == cached
            },
            None => match before.store.loads(record) {
                Loaded::Tokens(stored) => match stored.header(use_refresh) {
                    Some(derived) => header matches Ok(value) && value@ == derived,
                    None => header matches Err(AppError::MissingToken { kind }) && kind
                        == TokenKind::of(use_refresh),
                },
                Loaded::Corrupted => {
                    &&& self.tokens == before.tokens
                    &&& header matches Err(AppError::CorruptedStore)
                },
                Loaded::Undecodable => {
                    &&& self.tokens == before.tokens
                    &&& header matches Err(AppError::Serialization(_))
                },
            },
        }
    }

    /// The header for the requested credential, from the cache or, where
    /// the cache has none, from the vault; see [`Client::got_header`].
    pub fn get_header(&mut self, use_refresh: bool, record: &Option<EncryptedRecord>) -> (header:
        Result<String, AppError>)
        ensures
            final(self).got_header(*old(self), use_refresh, *record, header),
    {
        if let Some(value) = self.tokens.header_value(use_refresh) {
            return Ok(value);
        }
        match self.reload_tokens_from_store(record) {
            Ok(_) => {},
            Err(error) => {
                return Err(error);
            },
        }
        match self.tokens.header_value(use_refresh) {
            Some(value) => Ok(value),
            None => Err(AppError::missing_tokens(use_refresh)),
        }
    }

    /// The header that carries the access token; see
    /// [`Client::got_header`].
    pub fn auth_header(&mut self, record: &Option<EncryptedRecord>) -> (header: Result<
        String,
        AppError,
    >)
        ensures
            final(self).got_header(*old(self), false, *record, header),
    {
        self.get_header(false, record)
    }

    /// The header that carries the refresh token; see
    /// [`Client::got_header`].
    pub fn refresh_header(&mut self, record: &Option<EncryptedRecord>) -> (header: Result<
        String,
        AppError,
    >)
        ensures
            final(self).got_header(*old(self), true, *record, header),
    {
        self.get_header(true, record)
    }

    /// The first half of making `tokens` the current set: what to do to
    /// the store, as [`TokenStore::save`] decides it.  The cache is not
    /// touched; once the caller has carried the action out,
    /// [`Client::commit_tokens`] puts the set into the cache.
    pub fn seal_tokens(&self, tokens: &Tokens) -> (action: Result<StoreAction, AppError>)
        ensures
            self.store.saves(tokens@, action),
    {
        self.store.save(tokens)
    }

    /// The second half: `tokens`, which the store now holds, becomes the
    /// cached set.
    pub fn commit_tokens(&mut self, tokens: Tokens)
        ensures
            final(self).base_url == old(self).base_url,
            final(self).store == old(self).store,
            final(self).tokens == tokens,
    {
        self.tokens = tokens;
    }

    /// Forgets the current set: the cache becomes empty and the returned
    /// action, always `Delete`, empties the vault.
    pub fn clear_tokens(&mut self) -> (action: StoreAction)
        ensures
            final(self).base_url == old(self).base_url,
            final(self).store == old(self).store,
            final(self).tokens@ == TokensView::empty(),
            action == StoreAction::Delete,
    {
        self.tokens = Tokens::default();
        self.store.clear()
    }

    /// `taken` is what an answer of an identity endpoint, received with
    /// transport status `status` at clock reading `now`, comes to.
    ///
    /// An answer that is no success (the status is none of 200 to 299, or
    /// the envelope does not say `success`), and one that carries no data,
    /// is an `Api` error of the envelope's code and message, whatever else
    /// the envelope holds.  Otherwise the set issued at `now` is sealed for
    /// the store and handed back with the envelope stripped of the token
    /// material; or sealing failed, with `Crypto`.
    pub open spec fn accepted_at(
        &self,
        status: u16,
        response: ApiResponse<AuthTokensResponse>,
        now: int,
        taken: Result<Pending, AppError>,
    ) -> bool {
        if !is_success_status(status) || !response.success || response.data is None {
            taken matches Err(error) && error == (AppError::Api {
                code: response.code,
                message: response.message,
            })
        } else {
            let data = response.data->0;
            let issued = TokensView::issued(
                data.access_token@,
                data.refresh_token@,
                data.token_type@,
                data.expires_in as int,
                now,
            );
            match taken {
                Ok(pending) => {
                    &&& pending.envelope.code == response.code
                    &&& pending.envelope.message == response.message
                    &&& pending.envelope.success == response.success
                    &&& pending.envelope.data is None
                    &&& pending.tokens@ == issued
                    &&& self.store.saves(issued, Ok(pending.action))
                },
                Err(error) => self.store.saves(issued, Err(error)),
            }
        }
    }

    /// `done` is what the outcome of a refresh call at clock reading `now`
    /// comes to, from the client `before` to the client `self`.
    ///
    /// A successful answer that carries tokens is taken in as
    /// [`Client::accepted_at`] says, and the cache stays as it is until the
    /// new set is committed.  Every failure (the call itself failed, the
    /// answer is no success or carries no data, the new set could not be
    /// sealed) leaves no credentials behind: the cache is empty, the action
    /// is `Delete`, and the error is the cause of the failed call, or the
    /// one that [`Client::accepted_at`] gives for the answer.
    pub open spec fn refreshed_at(
        &self,
        before: Client,
        outcome: Result<(u16, ApiResponse<AuthTokensResponse>), AppError>,
        now: int,
        done: Result<Pending, Rejected>,
    ) -> bool {
        &&& self.base_url == before.base_url
        &&& self.store == before.store
        &&& match done {
            Ok(pending) => {
                &&& self.tokens == before.tokens
                &&& outcome matches Ok(answer) && before.accepted_at(
                    answer.0,
                    answer.1,
                    now,
                    Ok(pending),
                )
            },
            Err(rejected) => {
                &&& self.tokens@ == TokensView::empty()
                &&& rejected.action == StoreAction::Delete
                &&& match outcome {
                    Err(cause) => rejected.error == cause,
                    Ok(answer) => before.accepted_at(
                        answer.0,
                        answer.1,
                        now,
                        Err::<Pending, AppError>(rejected.error),
                    ),
                }
            },
        }
    }

    /// Takes in the answer of an identity endpoint that came with
    /// transport status `status` at clock reading `now`; see
    /// [`Client::accepted_at`].  The cache is not touched.
    pub fn accept_tokens_at(
        &self,
        status: u16,
        response: ApiResponse<AuthTokensResponse>,
        now: i64,
    ) -> (taken: Result<Pending, AppError>)
        ensures
            self.accepted_at(status, response, now as int, taken),
    {
        let ApiResponse { code, message, success, data } = response;
        if !is_success(status) || !success {
            return Err(AppError::api(code, message));
        }
        let data = match data {
            Some(data) => data,
            None => {
                return Err(AppError::api(code, message));
            },
        };
        let tokens = Tokens::from_response_at(data, now);
        match self.seal_tokens(&tokens) {
            Ok(action) => Ok(
                Pending { envelope: ApiResponse::new(code, message, success, None), tokens, action },
            ),
            Err(error) => Err(error),
        }
    }

    /// Takes in the answer of the login endpoint, received now.  What
    /// [`Client::accepted_at`] says holds for the reading of the clock,
    /// whatever it was.
    pub fn login(&self, status: u16, response: ApiResponse<AuthTokensResponse>) -> (taken: Result<
        Pending,
        AppError,
    >)
        ensures
            exists|now: int|
                i64::MIN <= now <= i64::MAX && #[trigger] self.accepted_at(
                    status,
                    response,
                    now,
                    taken,
                ),
    {
        let now = unix_now();
        self.accept_tokens_at(status, response, now)
    }

    /// Takes in the outcome of a refresh call that ended at clock reading
    /// `now`: the transport status and the envelope, or the error the call
    /// failed with; see [`Client::refreshed_at`].
    pub fn refresh_tokens_at(
        &mut self,
        outcome: Result<(u16, ApiResponse<AuthTokensResponse>), AppError>,
        now: i64,
    ) -> (done: Result<Pending, Rejected>)
        ensures
            final(self).refreshed_at(*old(self), outcome, now as int, done),
    {
        let taken = match outcome {
            Ok((status, response)) => self.accept_tokens_at(status, response, now),
            Err(cause) => Err(cause),
        };
        match taken {
            Ok(pending) => Ok(pending),
            Err(error) => {
                let action = self.clear_tokens();
                Err(Rejected { error, action })
            },
        }
    }

    /// Takes in the outcome of a refresh call that ended now.  What
    /// [`Client::refreshed_at`] says holds for the reading of the clock,
    /// whatever it was.
    pub fn refresh_tokens(
        &mut self,
        outcome: Result<(u16, ApiResponse<AuthTokensResponse>), AppError>,
    ) -> (done: Result<Pending, Rejected>)
        ensures
            exists|now: int|
                i64::MIN <= now <= i64::MAX && #[trigger] final(self).refreshed_at(
                    *old(self),
                    outcome,
                    now,
                    done,
                ),
    {
        let now = unix_now();
        self.refresh_tokens_at(outcome, now)
    }

    /// Ends the session locally, whatever the remote side answered to the
    /// logout call: the cache becomes empty and the returned action,
    /// always `Delete`, empties the vault.
    pub fn logout(&mut self) -> (action: StoreAction)
        ensures
            final(self).base_url == old(self).base_url,
            final(self).store == old(self).store,
            final(self).tokens@ == TokensView::empty(),
            action == StoreAction::Delete,
    {
        self.clear_tokens()
    }
}

/// With an empty cache and an empty vault, asking for a header of either
/// kind fails with `MissingToken` for that kind, before any request could
/// be made, and leaves the cache empty.
pub proof fn law_nothing_stored_no_header(
    before: Client,
    after: Client,
    use_refresh: bool,
    header: Result<String, AppError>,
)
    requires
        before.tokens@ == TokensView::empty(),
        after.got_header(before, use_refresh, None, header),
    ensures
        header matches Err(AppError::MissingToken { kind }) && kind == TokenKind::of(use_refresh),
        after.tokens@ == TokensView::empty(),
{
}

} // verus!
