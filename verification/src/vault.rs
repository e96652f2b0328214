//! The credential vault: one encrypted record and the key that seals it.
//!
//! The vault never touches the disk itself.  Reading takes the record as it
//! was found (or `None`), writing returns a [`StoreAction`] for the caller to
//! carry out on the single-row store.

use vstd::prelude::*;
use aes_gcm::aead::Aead;
use aes_gcm::KeyInit;
use rand::RngCore;
use crate::error::AppError;
use crate::token::unix_now;
use crate::token::Tokens;
use crate::token::TokensView;

verus! {

/// Length of the symmetric key in bytes.
pub const KEY_LEN: usize = 32;

/// Length of the nonce in bytes.
pub const NONCE_LEN: usize = 12;

/// Longest plaintext, in bytes, that the cipher accepts.
pub const MAX_PLAINTEXT_LEN: u64 = 0x10_0000_0000;

/// Length of the authentication tag that sealing appends.
pub const TAG_LEN: usize = 16;

/// The cipher's own error, carried through unopened.
#[verifier::external_type_specification]
#[verifier::external_body]
pub struct ExAeadError(aes_gcm::aead::Error);

/// The random source's own error, carried through unopened.
#[verifier::external_type_specification]
#[verifier::external_body]
pub struct ExRandError(rand::Error);

/// The ciphertext (tag included) that AES-256-GCM produces for a 32-byte
/// key, a 12-byte nonce and a plaintext, with no associated data.
pub uninterp spec fn aes_gcm_seal(key: Seq<u8>, nonce: Seq<u8>, plaintext: Seq<u8>) -> Seq<u8>;

/// The plaintext that AES-256-GCM recovers from a payload under a 32-byte
/// key and a 12-byte nonce, or `None` where authentication fails.
pub uninterp spec fn aes_gcm_open(key: Seq<u8>, nonce: Seq<u8>, payload: Seq<u8>) -> Option<
    Seq<u8>,
>;

/// The JSON text that stands for a token set: an array of the access
/// token, the refresh token, the scheme and the expiry, `null` for an
/// absent one.
pub uninterp spec fn token_encoding(tokens: TokensView) -> Seq<u8>;

/// The token set that a JSON text stands for, or `None` where the text is
/// not such an array.
pub uninterp spec fn token_decoding(bytes: Seq<u8>) -> Option<TokensView>;

/// `Aes256Gcm::encrypt` under a cipher made by `Aes256Gcm::new` from `key`.
/// The call is refused exactly for a plaintext above the cipher's limit.
/// Otherwise the result is the named ciphertext, sixteen bytes longer than
/// the plaintext, and opening it under the same key and nonce gives the
/// plaintext back.
#[verifier::external_body]
fn seal(key: &Vec<u8>, nonce: &[u8], plaintext: &[u8]) -> (sealed: Result<
    Vec<u8>,
    aes_gcm::aead::Error,
>)
    requires
        key@.len() == KEY_LEN,
        nonce@.len() == NONCE_LEN,
    ensures
        sealed is Ok <==> plaintext@.len() <= MAX_PLAINTEXT_LEN,
        sealed matches Ok(payload) ==> payload@ == aes_gcm_seal(key@, nonce@, plaintext@)
            && payload@.len() == plaintext@.len() + TAG_LEN && aes_gcm_open(
            key@,
            nonce@,
            payload@,
        ) == Some(plaintext@),
{
    let cipher = aes_gcm::Aes256Gcm::new(aes_gcm::Key::<aes_gcm::Aes256Gcm>::from_slice(key));
    cipher.encrypt(aes_gcm::Nonce::from_slice(nonce), plaintext)
}

/// `Aes256Gcm::decrypt` under a cipher made by `Aes256Gcm::new` from `key`:
/// the named plaintext, or the cipher's error where there is none.
#[verifier::external_body]
fn open(key: &Vec<u8>, nonce: &[u8], payload: &[u8]) -> (opened: Result<
    Vec<u8>,
    aes_gcm::aead::Error,
>)
    requires
        key@.len() == KEY_LEN,
        nonce@.len() == NONCE_LEN,
    ensures
        match opened {
            Ok(plaintext) => aes_gcm_open(key@, nonce@, payload@) == Some(plaintext@),
            Err(_) => aes_gcm_open(key@, nonce@, payload@) is None,
        },
{
    let cipher = aes_gcm::Aes256Gcm::new(aes_gcm::Key::<aes_gcm::Aes256Gcm>::from_slice(key));
    cipher.decrypt(aes_gcm::Nonce::from_slice(nonce), payload)
}

/// `OsRng::try_fill_bytes` on a buffer of `len` bytes.  Of the bytes
/// nothing is claimed but their number.
#[verifier::external_body]
fn random_bytes(len: usize) -> (bytes: Result<Vec<u8>, rand::Error>)
    ensures
        bytes matches Ok(b) ==> b@.len() == len,
{
    let mut buffer = vec![0u8; len];
    rand::rngs::OsRng.try_fill_bytes(&mut buffer)?;
    Ok(buffer)
}

/// `serde_json::to_vec` on the four fields as a tuple.  The call
/// succeeds: the codec fails only where a value refuses to be written or a
/// map has a key that is no string, and a tuple of optional strings and an
/// optional integer has neither.  Decoding the result gives the same set
/// back.
#[verifier::external_body]
fn encode_tokens(tokens: &Tokens) -> (encoded: Result<Vec<u8>, serde_json::Error>)
    ensures
        encoded is Ok,
        encoded matches Ok(bytes) ==> bytes@ == token_encoding(tokens@) && token_decoding(bytes@)
            == Some(tokens@),
{
    serde_json::to_vec(
        &(&tokens.access_token, &tokens.refresh_token, &tokens.token_type, &tokens.expires_at),
    )
}

/// `serde_json::from_slice` to the four fields as a tuple: the named set,
/// or the codec's error where there is none.
#[verifier::external_body]
fn decode_tokens(bytes: &[u8]) -> (decoded: Result<Tokens, serde_json::Error>)
    ensures
        match decoded {
            Ok(tokens) => token_decoding(bytes@) == Some(tokens@),
            Err(_) => token_decoding(bytes@) is None,
        },
{
    let fields: (Option<String>, Option<String>, Option<String>, Option<i128>) =
        serde_json::from_slice(bytes)?;
    Ok(Tokens {
        access_token: fields.0,
        refresh_token: fields.1,
        token_type: fields.2,
        expires_at: fields.3,
    })
}

/// The single record of the store.
#[derive(Clone, Debug, PartialEq, Eq)]
pub struct EncryptedRecord {
    /// The sealed token set, authentication tag included.
    pub ciphertext: Vec<u8>,
    /// The nonce the set was sealed under; twelve bytes in a sound record.
    pub nonce: Vec<u8>,
    /// When the record was last written, in seconds since the Unix epoch.
    pub updated_at: i64,
}

/// What a caller has to do to the single-row store.
#[derive(Debug, PartialEq, Eq)]
pub enum StoreAction {
    /// Remove the record, if there is one.
    Delete,
    /// Insert the record, or replace the one that is there.
    Upsert(EncryptedRecord),
}

impl StoreAction {
    /// The content of the store once the action is carried out.
    pub open spec fn applied(self) -> Option<EncryptedRecord> {
        match self {
            StoreAction::Delete => None,
            StoreAction::Upsert(record) => Some(record),
        }
    }

    /// Carries the action out on an in-memory store.
    pub fn apply(self, store: &mut Option<EncryptedRecord>)
        ensures
            *final(store) == self.applied(),
    {
        match self {
            StoreAction::Delete => {
                *store = None;
            },
            StoreAction::Upsert(record) => {
                *store = Some(record);
            },
        }
    }
}

/// What reading a store content comes to.
pub enum Loaded {
    /// The token set that the record holds; the empty one without a record.
    Tokens(TokensView),
    /// The nonce has the wrong length or the record does not decrypt.
    Corrupted,
    /// The record decrypts to something that is no token set.
    Undecodable,
}

/// The key a vault starts with, and whether it still has to be written to
/// the key file.
#[derive(Debug)]
pub struct KeyMaterial {
    pub key: Vec<u8>,
    pub created: bool,
}

/// Decides on the vault key from what the key file holds (`None` when
/// there is no file).  A file of 32 bytes is the key.  A file of any other
/// size is corrupted state and is never replaced.  Without a file a fresh
/// random key is made, which the caller must write.
pub fn load_or_create_key(existing: Option<Vec<u8>>) -> (material: Result<KeyMaterial, AppError>)
    ensures
        match existing {
            Some(data) => if data@.len() == KEY_LEN {
                material matches Ok(m) && m.key@ == data@ && !m.created
            } else {
                material matches Err(AppError::CorruptedStore)
            },
            None => match material {
                Ok(m) => m.key@.len() == KEY_LEN && m.created,
                Err(e) => e is Crypto,
            },
        },
{
    match existing {
        Some(data) => {
            if data.len() == KEY_LEN {
                Ok(KeyMaterial { key: data, created: false })
            } else {
                Err(AppError::corrupted_store())
            }
        },
        None => match random_bytes(KEY_LEN) {
            Ok(key) => Ok(KeyMaterial { key, created: true }),
            Err(_) => Err(AppError::Crypto),
        },
    }
}

/// The vault: the key under which the single record is sealed.
pub struct TokenStore {
    key: Vec<u8>,
}

impl TokenStore {
    #[verifier::type_invariant]
    spec fn key_has_full_length(&self) -> bool {
        self.key@.len() == KEY_LEN
    }

    /// The vault key.
    pub closed spec fn key(&self) -> Seq<u8> {
        self.key@
    }

    /// The plaintext of a record, where its nonce has twelve bytes and the
    /// cipher authenticates it under the vault key.
    pub open spec fn opens(&self, payload: Seq<u8>, nonce: Seq<u8>) -> Option<Seq<u8>> {
        if nonce.len() == NONCE_LEN {
            aes_gcm_open(self.key(), nonce, payload)
        } else {
            None
        }
    }

    /// What reading the store content `record` comes to under this key.
    pub open spec fn loads(&self, record: Option<EncryptedRecord>) -> Loaded {
        match record {
            None => Loaded::Tokens(TokensView::empty()),
            Some(record) => match self.opens(record.ciphertext@, record.nonce@) {
                None => Loaded::Corrupted,
                Some(plaintext) => match token_decoding(plaintext) {
                    None => Loaded::Undecodable,
                    Some(tokens) => Loaded::Tokens(tokens),
                },
            },
        }
    }

    /// `loaded` is what reading the store content `record` returns: the
    /// set that it holds, `CorruptedStore` where the nonce has the wrong
    /// length or the record does not decrypt, `Serialization` where it
    /// decrypts to something that is no token set.
    pub open spec fn reads(&self, record: Option<EncryptedRecord>, loaded: Result<Tokens, AppError>)
        -> bool {
        match self.loads(record) {
            Loaded::Tokens(tokens) => loaded matches Ok(read) && read@ == tokens,
            Loaded::Corrupted => loaded matches Err(AppError::CorruptedStore),
            Loaded::Undecodable => loaded matches Err(AppError::Serialization(_)),
        }
    }

    /// `action` is what saving `tokens` returns: `Delete` for a blank set;
    /// for any other set an `Upsert` of its encoding, sealed under a nonce
    /// of twelve bytes, which reads back as the same set; or the error
    /// `Crypto`, where no nonce could be drawn or the cipher refused.
    pub open spec fn saves(&self, tokens: TokensView, action: Result<StoreAction, AppError>)
        -> bool {
        if tokens.is_blank() {
            action matches Ok(StoreAction::Delete)
        } else {
            match action {
                Ok(StoreAction::Upsert(record)) => {
                    &&& record.nonce@.len() == NONCE_LEN
                    &&& record.ciphertext@ == aes_gcm_seal(
                        self.key(),
                        record.nonce@,
                        token_encoding(tokens),
                    )
                    &&& self.loads(Some(record)) == Loaded::Tokens(tokens)
                },
                Ok(StoreAction::Delete) => false,
                Err(error) => error is Crypto,
            }
        }
    }

    /// A vault over `key`, which must have exactly 32 bytes; any other
    /// length is corrupted state.
    pub fn new(key: Vec<u8>) -> (store: Result<TokenStore, AppError>)
        ensures
            match store {
                Ok(s) => key@.len() == KEY_LEN && s.key() == key@,
                Err(e) => key@.len() != KEY_LEN && e is CorruptedStore,
            },
    {
        if key.len() == KEY_LEN {
            Ok(TokenStore { key })
        } else {
            Err(AppError::corrupted_store())
        }
    }

    /// Seals `plaintext` under the vault key and the given nonce.  Fails
    /// with `Crypto` exactly when the plaintext is longer than the cipher
    /// accepts.
    pub fn encrypt_with(&self, plaintext: &[u8], nonce: Vec<u8>) -> (sealed: Result<
        (Vec<u8>, Vec<u8>),
        AppError,
    >)
        requires
            nonce@.len() == NONCE_LEN,
        ensures
            match sealed {
                Ok((payload, used)) => plaintext@.len() <= MAX_PLAINTEXT_LEN && used@ == nonce@
                    && payload@ == aes_gcm_seal(self.key(), nonce@, plaintext@) && payload@.len()
                    == plaintext@.len() + TAG_LEN && self.opens(payload@, used@) == Some(
                    plaintext@,
                ),
                Err(e) => plaintext@.len() > MAX_PLAINTEXT_LEN && e is Crypto,
            },
    {
        proof {
            use_type_invariant(self);
        }
        match seal(&self.key, nonce.as_slice(), plaintext) {
            Ok(payload) => Ok((payload, nonce)),
            Err(_) => Err(AppError::Crypto),
        }
    }

    /// Seals `plaintext` under the vault key and a nonce drawn for this
    /// call alone.  Whatever nonce was drawn, it has twelve bytes, the
    /// payload is the cipher's for it, and `decrypt` recovers the
    /// plaintext.  The only error is `Crypto`.
    pub fn encrypt(&self, plaintext: &[u8]) -> (sealed: Result<(Vec<u8>, Vec<u8>), AppError>)
        ensures
            match sealed {
                Ok((payload, nonce)) => nonce@.len() == NONCE_LEN && payload@ == aes_gcm_seal(
                    self.key(),
                    nonce@,
                    plaintext@,
                ) && self.opens(payload@, nonce@) == Some(plaintext@),
                Err(e) => e is Crypto,
            },
            plaintext@.len() > MAX_PLAINTEXT_LEN ==> sealed is Err,
    {
        match random_bytes(NONCE_LEN) {
            Ok(nonce) => self.encrypt_with(plaintext, nonce),
            Err(_) => Err(AppError::Crypto),
        }
    }

    /// Opens a payload.  A nonce that has not exactly twelve bytes, and a
    /// payload that the cipher does not authenticate under the vault key,
    /// both give `CorruptedStore`; there is no other error.
    pub fn decrypt(&self, payload: &[u8], nonce: &[u8]) -> (opened: Result<Vec<u8>, AppError>)
        ensures
            match opened {
                Ok(plaintext) => self.opens(payload@, nonce@) == Some(plaintext@),
                Err(e) => self.opens(payload@, nonce@) is None && e is CorruptedStore,
            },
            nonce@.len() != NONCE_LEN ==> opened is Err,
    {
        proof {
            use_type_invariant(self);
        }
        if nonce.len() != NONCE_LEN {
            return Err(AppError::corrupted_store());
        }
        match open(&self.key, nonce, payload) {
            Ok(plaintext) => Ok(plaintext),
            Err(_) => Err(AppError::corrupted_store()),
        }
    }

    /// Reads the store content `record`: the empty set where there is no
    /// record, the decrypted set where there is one, `CorruptedStore` where
    /// its nonce is not twelve bytes long or it does not decrypt, and
    /// `Serialization` where it decrypts to something else than a set.
    pub fn load(&self, record: &Option<EncryptedRecord>) -> (loaded: Result<Tokens, AppError>)
        ensures
            self.reads(*record, loaded),
    {
        match record {
            None => Ok(Tokens::default()),
            Some(record) => {
                let plaintext = match self.decrypt(
                    record.ciphertext.as_slice(),
                    record.nonce.as_slice(),
                ) {
                    Ok(plaintext) => plaintext,
                    Err(_) => {
                        return Err(AppError::corrupted_store());
                    },
                };
                match decode_tokens(plaintext.as_slice()) {
                    Ok(tokens) => Ok(tokens),
                    Err(cause) => Err(AppError::Serialization(cause)),
                }
            },
        }
    }

    /// The record for an encoded token set sealed under the given nonce
    /// and written at the given time.  Fails with `Crypto` exactly when the
    /// encoding is longer than the cipher accepts.
    pub fn seal_record(&self, encoded: Vec<u8>, nonce: Vec<u8>, updated_at: i64) -> (action:
        Result<StoreAction, AppError>)
        requires
            nonce@.len() == NONCE_LEN,
        ensures
            match action {
                Ok(StoreAction::Upsert(record)) => encoded@.len() <= MAX_PLAINTEXT_LEN
                    && record.nonce@ == nonce@ && record.updated_at == updated_at
                    && record.ciphertext@ == aes_gcm_seal(self.key(), nonce@, encoded@)
                    && self.opens(record.ciphertext@, record.nonce@) == Some(encoded@),
                Ok(StoreAction::Delete) => false,
                Err(e) => encoded@.len() > MAX_PLAINTEXT_LEN && e is Crypto,
            },
    {
        match self.encrypt_with(encoded.as_slice(), nonce) {
            Ok((ciphertext, nonce)) => Ok(
                StoreAction::Upsert(EncryptedRecord { ciphertext, nonce, updated_at }),
            ),
            Err(e) => Err(e),
        }
    }

    /// What to do to the store so that it holds `tokens`.
    ///
    /// A set without access and refresh token is not written: the answer is
    /// `Delete`, as from [`TokenStore::clear`].  Any other set is encoded
    /// and sealed under a nonce drawn for this call alone, and the answer
    /// is an `Upsert` of a record, stamped with the current time, that
    /// [`TokenStore::load`] reads back as the same set.  The only error is
    /// `Crypto`.
    ///
    /// The sealed plaintext is a JSON array of the four fields, in the
    /// order access token, refresh token, scheme, expiry, with `null` for
    /// an absent one.  A record sealed from any other layout, an object
    /// with named fields for one, does not decode: [`TokenStore::load`]
    /// answers it with `Serialization`.
    pub fn save(&self, tokens: &Tokens) -> (action: Result<StoreAction, AppError>)
        ensures
            self.saves(tokens@, action),
    {
        if tokens.is_blank() {
            return Ok(self.clear());
        }
        let encoded = match encode_tokens(tokens) {
            Ok(encoded) => encoded,
            Err(cause) => {
                return Err(AppError::Serialization(cause));
            },
        };
        let nonce = match random_bytes(NONCE_LEN) {
            Ok(nonce) => nonce,
            Err(_) => {
                return Err(AppError::Crypto);
            },
        };
        self.seal_record(encoded, nonce, unix_now())
    }

    /// What to do to the store so that it holds nothing: always `Delete`.
    pub fn clear(&self) -> (action: StoreAction)
        ensures
            action == StoreAction::Delete,
    {
        StoreAction::Delete
    }
}

/// Saving a set that is not blank and then loading what the store holds
/// gives the same set back.
pub proof fn law_save_then_load_round_trips(
    store: TokenStore,
    tokens: TokensView,
    action: StoreAction,
    loaded: Result<Tokens, AppError>,
)
    requires
        !tokens.is_blank(),
        store.saves(tokens, Ok(action)),
        store.reads(action.applied(), loaded),
    ensures
        loaded matches Ok(read) && read@ == tokens,
{
}

/// Saving a blank set does what `clear` does, a `Delete`, and loading what
/// the store holds afterwards gives the empty set.
pub proof fn law_save_blank_is_clear(
    store: TokenStore,
    tokens: TokensView,
    saved: Result<StoreAction, AppError>,
    loaded: Result<Tokens, AppError>,
)
    requires
        tokens.is_blank(),
        store.saves(tokens, saved),
        saved matches Ok(action) ==> store.reads(action.applied(), loaded),
    ensures
        saved == Ok::<StoreAction, AppError>(StoreAction::Delete),
        loaded matches Ok(read) && read@ == TokensView::empty(),
{
}

/// A record whose nonce has not exactly twelve bytes never loads: reading
/// it is `CorruptedStore`, whatever the key and the ciphertext, and
/// decrypting under such a nonce yields no plaintext.
pub proof fn law_bad_nonce_is_corrupted(
    store: TokenStore,
    record: EncryptedRecord,
    loaded: Result<Tokens, AppError>,
)
    requires
        record.nonce@.len() != NONCE_LEN,
        store.reads(Some(record), loaded),
    ensures
        loaded matches Err(AppError::CorruptedStore),
        store.opens(record.ciphertext@, record.nonce@) is None,
{
}

} // verus!
