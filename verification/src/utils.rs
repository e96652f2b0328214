//! The per-installation data directory.

use vstd::prelude::*;

verus! {

/// The directory under which the key file and the record store live.
///
/// A value of this type can only be made by [`init_token_data_dir`], so a
/// vault built from one always has a directory to work in.
#[derive(Debug)]
pub struct TokenDataDir {
    path: String,
}

impl TokenDataDir {
    /// The directory this value was initialised with.
    pub closed spec fn path(&self) -> Seq<char> {
        self.path@
    }
}

/// Fixes the data directory for the lifetime of the returned value.
pub fn init_token_data_dir(path: String) -> (dir: TokenDataDir)
    ensures
        dir.path() == path@,
{
    TokenDataDir { path }
}

/// The directory that `dir` was initialised with.
pub fn token_data_dir(dir: &TokenDataDir) -> (path: String)
    ensures
        path@ == dir.path(),
{
    dir.path.clone()
}

} // verus!
