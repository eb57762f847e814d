//! API tokens: the key a token is stored under, the copy kept for the
//! session, and how a read from the system keychain is combined with it.
//!
//! The keychain itself is reached by the caller, which hands the outcome of
//! its read to [`SecretsService::get_api_token`].
use vstd::prelude::*;

use crate::domain::errors::{AppError, AppResult};
use crate::text::{
    chars_of, drop_trailing, join3, opt_view, owned, seq_eq, string_of, to_lowercase, trim,
    trim_end_class, trim_ws, unicode_lowercase, CharClass,
};

verus! {

/// What a read of the system keychain gave.
pub enum KeyringRead {
    /// A token is stored.
    Found(String),
    /// No token is stored under the key.
    NoEntry,
    /// The read failed, with this message.
    Failed(String),
    /// The keychain entry could not be opened, with this message.
    Unavailable(String),
}

/// A server URL as used in keys: trimmed, without trailing `/`, lower-cased.
pub open spec fn normalize_url_key(url: Seq<char>) -> Seq<char> {
    unicode_lowercase(drop_trailing(trim_ws(url), CharClass::Is('/')))
}

/// The key of the token of a destination: normalized server URL, `::`, and
/// the trimmed dataset PID.
pub open spec fn account_key_spec(server_url: Seq<char>, dataset_pid: Seq<char>) -> Seq<char> {
    normalize_url_key(server_url) + "::"@ + trim_ws(dataset_pid)
}

/// The latest token recorded for `key` in a list of (key, token) records.
pub open spec fn latest_for(records: Seq<(String, String)>, key: Seq<char>) -> Option<Seq<char>>
    decreases records.len(),
{
    if records.len() == 0 {
        None
    } else if records.last().0@ == key {
        Some(records.last().1@)
    } else {
        latest_for(records.drop_last(), key)
    }
}

/// What a token read gives, from the session copy `cached` and the keychain
/// outcome `read`: the token (or none), or the keychain error message.
pub open spec fn read_outcome(cached: Option<Seq<char>>, read: KeyringRead) -> Result<
    Option<Seq<char>>,
    Seq<char>,
> {
    match read {
        KeyringRead::Found(t) => Ok(Some(t@)),
        KeyringRead::NoEntry => Ok(cached),
        KeyringRead::Failed(m) => match cached {
            Some(v) => Ok(Some(v)),
            None => Err(m@),
        },
        KeyringRead::Unavailable(m) => Err(m@),
    }
}

/// Normalizes a server URL for use in keys.
pub fn normalize(url: &str) -> (r: String)
    ensures
        r@ == normalize_url_key(url@),
{
    let t = trim(&chars_of(url));
    let u = trim_end_class(&t, CharClass::Is('/'));
    let s = string_of(&u);
    to_lowercase(s.as_str())
}

/// Tokens of the destinations, with a copy for the running session.
pub struct SecretsService {
    service_name: String,
    session_cache: Vec<(String, String)>,
}

impl SecretsService {
    /// The token kept for the session under `key`.
    pub closed spec fn cached(&self, key: Seq<char>) -> Option<Seq<char>> {
        latest_for(self.session_cache@, key)
    }

    /// The keychain service name.
    pub closed spec fn service_name_view(&self) -> Seq<char> {
        self.service_name@
    }

    /// A service storing under `service_name`, with nothing kept yet.
    pub fn new(service_name: &str) -> (r: Self)
        ensures
            r.service_name_view() == service_name@,
            forall|k: Seq<char>| r.cached(k) is None,
    {
        SecretsService { service_name: owned(service_name), session_cache: Vec::new() }
    }

    /// The name of the keychain service.
    pub fn service_name(&self) -> (r: &str)
        ensures
            r@ == self.service_name_view(),
    {
        self.service_name.as_str()
    }

    /// The key of the token of a destination.
    pub fn account_key(&self, server_url: &str, dataset_pid: &str) -> (r: String)
        ensures
            r@ == account_key_spec(server_url@, dataset_pid@),
    {
        let url = normalize(server_url);
        let pid = string_of(&trim(&chars_of(dataset_pid)));
        join3(url.as_str(), "::", pid.as_str())
    }

    /// Keeps `token` for the session as the token of the destination.
    pub fn remember_api_token(&mut self, server_url: &str, dataset_pid: &str, token: &str)
        ensures
            final(self).service_name_view() == old(self).service_name_view(),
            forall|k: Seq<char>|
                #[trigger] final(self).cached(k) == if k == account_key_spec(
                    server_url@,
                    dataset_pid@,
                ) {
                    Some(token@)
                } else {
                    old(self).cached(k)
                },
    {
        let key = self.account_key(server_url, dataset_pid);
        let ghost key_view = key@;
        let ghost before = self.session_cache@;
        self.session_cache.push((key, owned(token)));
        assert(self.session_cache@.drop_last() =~= before);
    }

    /// The token kept for the session under `key`.
    fn cached_token(&self, key: &str) -> (r: Option<String>)
        ensures
            opt_view(r) == self.cached(key@),
    {
        let k = chars_of(key);
        let mut j: usize = self.session_cache.len();
        assert(self.session_cache@.take(j as int) =~= self.session_cache@);
        while j > 0
            invariant
                j <= self.session_cache.len(),
                k@ == key@,
                latest_for(self.session_cache@, key@) == latest_for(
                    self.session_cache@.take(j as int),
                    key@,
                ),
            decreases j,
        {
            let entry_key = chars_of(self.session_cache[j - 1].0.as_str());
            assert(self.session_cache@.take(j as int).last() == self.session_cache@[j - 1]);
            if seq_eq(&entry_key, &k) {
                return Some(owned(self.session_cache[j - 1].1.as_str()));
            }
            assert(self.session_cache@.take(j as int).drop_last() =~= self.session_cache@.take(
                j - 1,
            ));
            j = j - 1;
        }
        None
    }

    /// The token of a destination, given what the keychain read gave: a
    /// stored token wins; without an entry the session copy is used; a
    /// failed read falls back on the session copy and reports the failure
    /// when there is none; an entry that cannot be opened is an error.
    pub fn get_api_token(&self, server_url: &str, dataset_pid: &str, read: KeyringRead) -> (r:
        AppResult<Option<String>>)
        ensures
            match read_outcome(self.cached(account_key_spec(server_url@, dataset_pid@)), read) {
                Ok(o) => r matches Ok(x) && opt_view(x) == o,
                Err(m) => r matches Err(AppError::Keyring(e)) && e@ == m,
            },
    {
        match read {
            KeyringRead::Found(t) => Ok(Some(t)),
            KeyringRead::NoEntry => {
                let key = self.account_key(server_url, dataset_pid);
                Ok(self.cached_token(key.as_str()))
            },
            KeyringRead::Failed(m) => {
                let key = self.account_key(server_url, dataset_pid);
                match self.cached_token(key.as_str()) {
                    Some(t) => Ok(Some(t)),
                    None => Err(AppError::Keyring(m)),
                }
            },
            KeyringRead::Unavailable(m) => Err(AppError::Keyring(m)),
        }
    }

    /// Whether a token is known for the destination, given what the keychain
    /// read gave.
    pub fn has_api_token(&self, server_url: &str, dataset_pid: &str, read: KeyringRead) -> (r:
        AppResult<bool>)
        ensures
            match read_outcome(self.cached(account_key_spec(server_url@, dataset_pid@)), read) {
                Ok(o) => r == Ok::<bool, AppError>(o is Some),
                Err(m) => r matches Err(AppError::Keyring(e)) && e@ == m,
            },
    {
        match self.get_api_token(server_url, dataset_pid, read) {
            Ok(t) => Ok(t.is_some()),
            Err(e) => Err(e),
        }
    }
}

/// A token kept for a destination is what a later read gives when the
/// keychain holds no entry for it or cannot be read; the tokens kept for
/// other destinations are unchanged.
pub proof fn law_remembered_token_is_read_back(
    before: SecretsService,
    after: SecretsService,
    server_url: Seq<char>,
    dataset_pid: Seq<char>,
    token: Seq<char>,
    failure: String,
    other: Seq<char>,
)
    requires
        forall|k: Seq<char>|
            #[trigger] after.cached(k) == if k == account_key_spec(server_url, dataset_pid) {
                Some(token)
            } else {
                before.cached(k)
            },
        other != account_key_spec(server_url, dataset_pid),
    ensures
        read_outcome(after.cached(account_key_spec(server_url, dataset_pid)), KeyringRead::NoEntry)
            == Ok::<Option<Seq<char>>, Seq<char>>(Some(token)),
        read_outcome(
            after.cached(account_key_spec(server_url, dataset_pid)),
            KeyringRead::Failed(failure),
        ) == Ok::<Option<Seq<char>>, Seq<char>>(Some(token)),
        after.cached(other) == before.cached(other),
{
    assert(after.cached(account_key_spec(server_url, dataset_pid)) == Some(token));
    assert(after.cached(other) == before.cached(other));
}

} // verus!
