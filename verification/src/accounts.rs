//! Decisions of account management: adding over an existing account, finding
//! the account a command names, and how a stored key is reported.

use vstd::prelude::*;
use crate::account::{missing_key_error, missing_key_error_for, unknown_account_error, unknown_account_error_for};
use crate::config::{AccountConfig, Config, find_entry};
use crate::error::{Error, ErrorCode, ErrorView, plain_error};
use crate::text::{eq_ignore_ascii_case, eq_ignore_case, is_blank, is_blank_str, trim, trimmed};

verus! {

/// The error for adding an account whose name is taken, without `--force`.
pub open spec fn exists_error(existing: Seq<char>, name: Seq<char>) -> ErrorView {
    plain_error(ErrorCode::InvalidInput, "Account '"@ + existing + "' already exists."@).with_fix(
        "reddit accounts add "@ + name + " --api-key <key> --force"@,
    )
}

/// Whether an account may be added under `name`: it may when no configured
/// name matches it ignoring ASCII case, or when `force` is given.
pub fn check_add(config: &Config, name: &str, force: bool) -> (r: Result<(), Error>)
    ensures
        match r {
            Ok(()) => force || find_entry(config@, name@) is None,
            Err(e) => !force && find_entry(config@, name@) is Some && e@ == exists_error(
                (find_entry(config@, name@)->0).0,
                name@,
            ),
        },
{
    if force {
        return Ok(());
    }
    match config.find(name) {
        Some((existing, _)) => {
            let msg = String::from_str("Account '").concat(existing.as_str()).concat("' already exists.");
            let fix = String::from_str("reddit accounts add ").concat(name).concat(" --api-key <key> --force");
            Err(Error::new(ErrorCode::InvalidInput, msg.as_str()).fix(fix.as_str()))
        },
        None => Ok(()),
    }
}

/// The configured account that `name` names (ignoring ASCII case), or the
/// error that lists the configured accounts.
pub fn require_account(config: &Config, name: &str) -> (r: Result<(String, AccountConfig), Error>)
    ensures
        match r {
            Ok(e) => find_entry(config@, name@) == Some((e.0@, e.1@)),
            Err(e) => find_entry(config@, name@) is None && e@ == unknown_account_error(name@, config@),
        },
{
    match config.find(name) {
        Some(e) => Ok(e),
        None => Err(unknown_account_error_for(name, config)),
    }
}

/// The key stored for account `name`, or the error that says it is missing
/// (no key, or a blank one).
pub fn require_key(name: &str, key: Option<String>) -> (r: Result<String, Error>)
    ensures
        match r {
            Ok(k) => key.deep_view() == Some(k@) && !is_blank(k@),
            Err(e) => (key is None || is_blank(key->0@)) && e@ == missing_key_error(name@),
        },
{
    match key {
        Some(k) => if is_blank_str(k.as_str()) {
            Err(missing_key_error_for(name))
        } else {
            Ok(k)
        },
        None => Err(missing_key_error_for(name)),
    }
}

/// The error for a key that was given blank.
pub open spec fn no_key_error() -> ErrorView {
    plain_error(ErrorCode::InvalidInput, "No API key was given."@).with_fix(
        "Pass --api-key <key> or --api-key-stdin."@,
    )
}

/// The key to store from what was given (flag, stdin or prompt): the text
/// without surrounding white space, which must not be empty.
pub fn given_key(key: &str) -> (r: Result<String, Error>)
    ensures
        match r {
            Ok(k) => !is_blank(key@) && k@ == trimmed(key@),
            Err(e) => is_blank(key@) && e@ == no_key_error(),
        },
{
    if is_blank_str(key) {
        Err(Error::invalid("No API key was given.").fix("Pass --api-key <key> or --api-key-stdin."))
    } else {
        Ok(trim(key))
    }
}

/// Whether an answer to a yes/no prompt is a yes: `y` or `yes` in any ASCII
/// case, surrounded by any white space.
pub open spec fn is_yes(answer: Seq<char>) -> bool {
    eq_ignore_ascii_case(trimmed(answer), "y"@) || eq_ignore_ascii_case(trimmed(answer), "yes"@)
}

/// Whether `answer` confirms a yes/no prompt.
pub fn confirms(answer: &str) -> (b: bool)
    ensures
        b == is_yes(answer@),
{
    let t = trim(answer);
    eq_ignore_case(t.as_str(), "y") || eq_ignore_case(t.as_str(), "yes")
}

/// How `accounts list` reports an account's key.
#[derive(Clone, Copy, Debug, PartialEq, Eq, Structural)]
pub enum KeyStatus {
    /// A key is stored (not checked against the API).
    Stored,
    /// No key is stored.
    Missing,
    /// The stored key was accepted by the API.
    Valid,
    /// The stored key was refused, or the check failed.
    Invalid,
}

/// The status of a key: whether one is stored, and the outcome of checking it
/// against the API when a check was made.
pub open spec fn key_status_of(stored: bool, check: Option<bool>) -> KeyStatus {
    if !stored {
        KeyStatus::Missing
    } else {
        match check {
            None => KeyStatus::Stored,
            Some(true) => KeyStatus::Valid,
            Some(false) => KeyStatus::Invalid,
        }
    }
}

/// The status of a key, as [`key_status_of`] says.
pub fn key_status(stored: bool, check: Option<bool>) -> (s: KeyStatus)
    ensures
        s == key_status_of(stored, check),
{
    if !stored {
        KeyStatus::Missing
    } else {
        match check {
            None => KeyStatus::Stored,
            Some(true) => KeyStatus::Valid,
            Some(false) => KeyStatus::Invalid,
        }
    }
}

/// The name a key status is reported under.
pub open spec fn key_status_name(s: KeyStatus) -> Seq<char> {
    match s {
        KeyStatus::Stored => "stored"@,
        KeyStatus::Missing => "missing"@,
        KeyStatus::Valid => "valid"@,
        KeyStatus::Invalid => "invalid"@,
    }
}

impl KeyStatus {
    /// The name this status is reported under.
    pub fn name(&self) -> (r: &'static str)
        ensures
            r@ == key_status_name(*self),
    {
        match self {
            KeyStatus::Stored => "stored",
            KeyStatus::Missing => "missing",
            KeyStatus::Valid => "valid",
            KeyStatus::Invalid => "invalid",
        }
    }
}

} // verus!
