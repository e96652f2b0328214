//! The cached profile of the signed-in user.

use vstd::prelude::*;
use vstd::string::StringExecFns;
use crate::error::AppError;
use crate::model::ApiResponse;
use crate::model::User;

verus! {

/// A [`User`] with every string as its characters.
pub struct UserView {
    pub id: u32,
    pub username: Seq<char>,
    pub email: Seq<char>,
    pub phone: Seq<char>,
    pub address: Seq<char>,
    pub is_admin: bool,
}

impl View for User {
    type V = UserView;

    open spec fn view(&self) -> UserView {
        UserView {
            id: self.id,
            username: self.username@,
            email: self.email@,
            phone: self.phone@,
            address: self.address@,
            is_admin: self.is_admin,
        }
    }
}

/// The profile of an optional user.
pub open spec fn opt_user(user: Option<User>) -> Option<UserView> {
    match user {
        Some(user) => Some(user@),
        None => None,
    }
}

/// A copy of a user.
pub fn copy_user(user: &User) -> (copy: User)
    ensures
        copy@ == user@,
{
    User {
        id: user.id,
        username: user.username.clone(),
        email: user.email.clone(),
        phone: user.phone.clone(),
        address: user.address.clone(),
        is_admin: user.is_admin,
    }
}

/// The profile that was last fetched, if any.
pub struct ProfileCache {
    pub user: Option<User>,
}

impl ProfileCache {
    /// A cache that holds no profile.
    pub fn new() -> (cache: ProfileCache)
        ensures
            cache.user is None,
    {
        ProfileCache { user: None }
    }

    /// The answer to "who am I" that needs no request: an `OK` envelope,
    /// code 200, around the cached profile; `None` without one.
    pub fn cached(&self) -> (answer: Option<ApiResponse<User>>)
        ensures
            match answer {
                Some(envelope) => envelope.code == 200 && envelope.message@ == "OK"@
                    && envelope.success && opt_user(envelope.data) == opt_user(self.user)
                    && self.user is Some,
                None => self.user is None,
            },
    {
        match &self.user {
            Some(user) => Some(
                ApiResponse::new(200, String::from_str("OK"), true, Some(copy_user(user))),
            ),
            None => None,
        }
    }

    /// Takes in a fetched profile: an envelope with data is remembered and
    /// handed on, one without fails with an `Api` error of its code and
    /// message and leaves the cache as it was.
    pub fn remember(&mut self, fetched: ApiResponse<User>) -> (answer: Result<
        ApiResponse<User>,
        AppError,
    >)
        ensures
            match answer {
                Ok(envelope) => fetched.data is Some && envelope == fetched && opt_user(
                    final(self).user,
                ) == opt_user(fetched.data),
                Err(error) => fetched.data is None && final(self).user == old(self).user
                    && error == (AppError::Api { code: fetched.code, message: fetched.message }),
            },
    {
        match fetched.require_data() {
            Ok(envelope) => {
                self.user = match &envelope.data {
                    Some(user) => Some(copy_user(user)),
                    None => None,
                };
                Ok(envelope)
            },
            Err(error) => Err(error),
        }
    }

    /// Drops the cached profile, as a logout does.
    pub fn forget(&mut self)
        ensures
            final(self).user is None,
    {
        self.user = None;
    }
}

} // verus!
