//! How answers of the OS key store become command results.
use vstd::prelude::*;
use crate::error::{AppError, AppErrorView};

verus! {

/// The service name under which API keys are stored in the OS key store.
pub const SERVICE_NAME: &'static str = "com.pulse.app";

/// What reading a provider's entry in the key store gave.
pub enum KeyLookup {
    /// The stored key.
    Found(String),
    /// No entry exists; the key store's message.
    NoEntry(String),
    /// The key store failed; its message.
    Failed(String),
}

/// The stored key; a missing entry or a failure is a key-store error.
pub fn key_required(lookup: KeyLookup) -> (r: Result<String, AppError>)
    ensures
        match lookup {
            KeyLookup::Found(k) => r matches Ok(v) && v@ == k@,
            KeyLookup::NoEntry(m) => r matches Err(e) && e@ == AppErrorView::Keychain(m@),
            KeyLookup::Failed(m) => r matches Err(e) && e@ == AppErrorView::Keychain(m@),
        },
{
    match lookup {
        KeyLookup::Found(k) => Ok(k),
        KeyLookup::NoEntry(m) => Err(AppError::Keychain(m)),
        KeyLookup::Failed(m) => Err(AppError::Keychain(m)),
    }
}

/// Whether a key is stored; only a failure of the key store is an error.
pub fn key_presence(lookup: KeyLookup) -> (r: Result<bool, AppError>)
    ensures
        match lookup {
            KeyLookup::Found(_) => r == Ok::<bool, AppError>(true),
            KeyLookup::NoEntry(_) => r == Ok::<bool, AppError>(false),
            KeyLookup::Failed(m) => r matches Err(e) && e@ == AppErrorView::Keychain(m@),
        },
{
    match lookup {
        KeyLookup::Found(_) => Ok(true),
        KeyLookup::NoEntry(_) => Ok(false),
        KeyLookup::Failed(m) => Err(AppError::Keychain(m)),
    }
}

/// The stored key if there is one; only a failure of the key store is an
/// error, so a missing key needs a single lookup.
pub fn key_if_present(lookup: KeyLookup) -> (r: Result<Option<String>, AppError>)
    ensures
        match lookup {
            KeyLookup::Found(k) => r matches Ok(Some(v)) && v@ == k@,
            KeyLookup::NoEntry(_) => r matches Ok(None),
            KeyLookup::Failed(m) => r matches Err(e) && e@ == AppErrorView::Keychain(m@),
        },
{
    match lookup {
        KeyLookup::Found(k) => Ok(Some(k)),
        KeyLookup::NoEntry(_) => Ok(None),
        KeyLookup::Failed(m) => Err(AppError::Keychain(m)),
    }
}

} // verus!
