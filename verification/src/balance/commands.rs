//! The decisions of the balance and usage commands: which provider is asked,
//! and how its answer (or the lack of an API key) is reported.
use vstd::prelude::*;
use crate::balance::config::{has_provider, is_first_provider, position_of, AppConfig, ProviderConfig};
use crate::error::{error_message, AppError, AppErrorView};
use crate::text::owned;

verus! {

/// The configured provider with the given id (the first one, if several).
pub fn find_provider(config: &AppConfig, provider_id: &str) -> (r: Result<ProviderConfig, AppError>)
    ensures
        !has_provider(config.providers@, provider_id@) ==> (r matches Err(e) && e@
            == AppErrorView::ProviderNotFound(provider_id@)),
        has_provider(config.providers@, provider_id@) ==> (r matches Ok(p) && exists|i: int|
            is_first_provider(config.providers@, provider_id@, i) && p == config.providers@[i]),
{
    match position_of(&config.providers, provider_id) {
        Some(i) => Ok(config.providers[i].clone()),
        None => Err(AppError::ProviderNotFound(owned(provider_id))),
    }
}

/// The enabled providers, in configuration order.
pub open spec fn enabled_providers(ps: Seq<ProviderConfig>) -> Seq<ProviderConfig>
    decreases ps.len(),
{
    if ps.len() == 0 {
        ps
    } else if ps.last().enabled {
        enabled_providers(ps.drop_last()).push(ps.last())
    } else {
        enabled_providers(ps.drop_last())
    }
}

/// The providers that a refresh of all balances queries: the enabled ones,
/// in configuration order.
pub fn providers_to_refresh(config: &AppConfig) -> (r: Vec<ProviderConfig>)
    ensures
        r@ == enabled_providers(config.providers@),
{
    let mut r: Vec<ProviderConfig> = Vec::new();
    let mut i: usize = 0;
    while i < config.providers.len()
        invariant
            i <= config.providers@.len(),
            r@ == enabled_providers(config.providers@.take(i as int)),
        decreases config.providers@.len() - i,
    {
        assert(config.providers@.take(i + 1).drop_last() =~= config.providers@.take(i as int));
        if config.providers[i].enabled {
            r.push(config.providers[i].clone());
        }
        i = i + 1;
    }
    assert(config.providers@.take(i as int) =~= config.providers@);
    r
}

/// The message reported for a provider without a stored API key.
pub open spec fn missing_key_message() -> Seq<char> {
    "API key not configured"@
}

/// The balance of one provider as reported to the user.
pub struct ProviderBalance<B> {
    pub provider_id: String,
    pub provider_name: String,
    pub balance: Option<B>,
    pub error: Option<String>,
    pub last_updated: Option<String>,
}

/// What a balance query gave: `None` when no API key is stored, otherwise the
/// adapter's answer.
pub type Fetched<B> = Option<Result<B, AppError>>;

/// `r` reports the provider's balance query: the balance with its time on
/// success, the error's message on failure, a missing-key message without key.
pub open spec fn reports_balance<B>(r: ProviderBalance<B>, provider: ProviderConfig, fetched: Fetched<B>, now: Seq<char>) -> bool {
    &&& r.provider_id@ == provider.id@
    &&& r.provider_name@ == provider.name@
    &&& match fetched {
        None => r.error matches Some(e) && e@ == missing_key_message() && r.balance is None
            && r.last_updated is None,
        Some(Ok(b)) => r.last_updated matches Some(t) && t@ == now && r.balance == Some(b)
            && r.error is None,
        Some(Err(err)) => r.error matches Some(e) && e@ == error_message(err@) && r.balance is None
            && r.last_updated is None,
    }
}

/// Reports a provider's balance query, stamping a success with `now` (the
/// local time in RFC 3339 form, which the caller reads from the clock).
pub fn balance_report_at<B>(provider: &ProviderConfig, fetched: Fetched<B>, now: String) -> (r: ProviderBalance<B>)
    ensures
        reports_balance(r, *provider, fetched, now@),
{
    match fetched {
        None => ProviderBalance {
            provider_id: provider.id.clone(),
            provider_name: provider.name.clone(),
            balance: None,
            error: Some(owned("API key not configured")),
            last_updated: None,
        },
        Some(Ok(b)) => ProviderBalance {
            provider_id: provider.id.clone(),
            provider_name: provider.name.clone(),
            balance: Some(b),
            error: None,
            last_updated: Some(now),
        },
        Some(Err(e)) => ProviderBalance {
            provider_id: provider.id.clone(),
            provider_name: provider.name.clone(),
            balance: None,
            error: Some(e.to_string()),
            last_updated: None,
        },
    }
}

/// The usage of one provider as reported to the user.
pub struct ProviderUsage<U> {
    pub provider_id: String,
    pub provider_name: String,
    pub usage: Option<U>,
    pub error: Option<String>,
}

/// Reports a provider's usage query: the usage on success, the error's
/// message on failure, a missing-key message without key.
pub fn usage_report<U>(provider: &ProviderConfig, fetched: Fetched<U>) -> (r: ProviderUsage<U>)
    ensures
        r.provider_id@ == provider.id@,
        r.provider_name@ == provider.name@,
        match fetched {
            None => r.error matches Some(e) && e@ == missing_key_message() && r.usage is None,
            Some(Ok(u)) => r.usage == Some(u) && r.error is None,
            Some(Err(err)) => r.error matches Some(e) && e@ == error_message(err@) && r.usage is None,
        },
{
    match fetched {
        None => ProviderUsage {
            provider_id: provider.id.clone(),
            provider_name: provider.name.clone(),
            usage: None,
            error: Some(owned("API key not configured")),
        },
        Some(Ok(u)) => ProviderUsage {
            provider_id: provider.id.clone(),
            provider_name: provider.name.clone(),
            usage: Some(u),
            error: None,
        },
        Some(Err(e)) => ProviderUsage {
            provider_id: provider.id.clone(),
            provider_name: provider.name.clone(),
            usage: None,
            error: Some(e.to_string()),
        },
    }
}

} // verus!
