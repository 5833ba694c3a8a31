//! The provider adapters: which API each provider type is queried at.
use vstd::prelude::*;
use crate::balance::config::ProviderType;
use crate::text::{chars_of, owned, push_str, string_of};

verus! {

/// The DeepSeek adapter.
pub struct DeepSeekProvider;

/// The OpenAI adapter.
pub struct OpenAiProvider;

/// The Anthropic adapter.
pub struct AnthropicProvider;

/// The OpenRouter adapter.
pub struct OpenRouterProvider;

/// The adapter for an OpenAI-compatible provider at a configured address.
pub struct CustomProvider {
    api_base_url: String,
}

impl DeepSeekProvider {
    pub fn new() -> (p: Self) {
        DeepSeekProvider
    }

    /// The name shown for the provider.
    pub fn provider_name(&self) -> (s: &'static str)
        ensures
            s@ == "DeepSeek"@,
    {
        "DeepSeek"
    }

    /// The balance endpoint.
    pub fn balance_url(&self) -> (s: String)
        ensures
            s@ == "https://api.deepseek.com/user/balance"@,
    {
        owned("https://api.deepseek.com/user/balance")
    }
}

impl OpenAiProvider {
    pub fn new() -> (p: Self) {
        OpenAiProvider
    }

    /// The name shown for the provider.
    pub fn provider_name(&self) -> (s: &'static str)
        ensures
            s@ == "OpenAI"@,
    {
        "OpenAI"
    }

    /// The balance endpoint.
    pub fn balance_url(&self) -> (s: String)
        ensures
            s@ == "https://api.openai.com/v1/dashboard/billing/credit_grants"@,
    {
        owned("https://api.openai.com/v1/dashboard/billing/credit_grants")
    }
}

impl AnthropicProvider {
    pub fn new() -> (p: Self) {
        AnthropicProvider
    }

    /// The name shown for the provider.
    pub fn provider_name(&self) -> (s: &'static str)
        ensures
            s@ == "Anthropic"@,
    {
        "Anthropic"
    }

    /// The balance endpoint.
    pub fn balance_url(&self) -> (s: String)
        ensures
            s@ == "https://api.anthropic.com/v1/account"@,
    {
        owned("https://api.anthropic.com/v1/account")
    }
}

impl OpenRouterProvider {
    pub fn new() -> (p: Self) {
        OpenRouterProvider
    }

    /// The name shown for the provider.
    pub fn provider_name(&self) -> (s: &'static str)
        ensures
            s@ == "OpenRouter"@,
    {
        "OpenRouter"
    }

    /// The balance endpoint.
    pub fn balance_url(&self) -> (s: String)
        ensures
            s@ == "https://openrouter.ai/api/v1/auth/key"@,
    {
        owned("https://openrouter.ai/api/v1/auth/key")
    }
}

/// `u` with all trailing `/` removed.
pub open spec fn without_trailing_slashes(u: Seq<char>) -> Seq<char>
    decreases u.len(),
{
    if u.len() > 0 && u.last() == '/' {
        without_trailing_slashes(u.drop_last())
    } else {
        u
    }
}

/// Removes every trailing `/` from a base URL.
pub fn normalize_base_url(url: &str) -> (r: String)
    ensures
        r@ == without_trailing_slashes(url@),
{
    let chars = chars_of(url);
    let mut end: usize = chars.len();
    assert(chars@.take(end as int) =~= chars@);
    while end > 0 && chars[end - 1] == '/'
        invariant
            end <= chars@.len(),
            chars@ == url@,
            without_trailing_slashes(url@) == without_trailing_slashes(chars@.take(end as int)),
        decreases end,
    {
        let ghost t = chars@.take(end as int);
        assert(t.drop_last() =~= chars@.take(end - 1));
        end = end - 1;
    }
    let mut r = String::new();
    let mut i: usize = 0;
    while i < end
        invariant
            end <= chars@.len(),
            i <= end,
            r@ == chars@.take(i as int),
        decreases end - i,
    {
        crate::text::push_char(&mut r, chars[i]);
        i = i + 1;
        assert(r@ =~= chars@.take(i as int));
    }
    proof {
        let t = chars@.take(end as int);
        assert(chars@.take(chars@.len() as int) =~= chars@);
        if t.len() > 0 {
            assert(t.last() == chars@[end - 1]);
        }
    }
    r
}

/// The result has no trailing `/`, and it is the input with its trailing `/`
/// removed: normalizing twice changes nothing.
pub proof fn lemma_normalize_idempotent(u: Seq<char>)
    ensures
        without_trailing_slashes(without_trailing_slashes(u)) == without_trailing_slashes(u),
        !(without_trailing_slashes(u).len() > 0 && without_trailing_slashes(u).last() == '/'),
        without_trailing_slashes(u).len() <= u.len(),
        u.take(without_trailing_slashes(u).len() as int) == without_trailing_slashes(u),
        forall|k: int| without_trailing_slashes(u).len() <= k < u.len() ==> u[k] == '/',
    decreases u.len(),
{
    if u.len() > 0 && u.last() == '/' {
        lemma_normalize_idempotent(u.drop_last());
        let n = without_trailing_slashes(u).len() as int;
        assert(u.drop_last().take(n) =~= u.take(n));
        assert forall|k: int| n <= k < u.len() implies u[k] == '/' by {
            if k < u.len() - 1 {
                assert(u.drop_last()[k] == u[k]);
            }
        }
    } else {
        assert(u.take(u.len() as int) =~= u);
    }
}

impl CustomProvider {
    /// An adapter for the placeholder address `https://api.custom.com`.
    pub fn new() -> (p: Self)
        ensures
            p.base_url()@ == "https://api.custom.com"@,
    {
        CustomProvider { api_base_url: owned("https://api.custom.com") }
    }

    /// An adapter for the given base address.
    pub fn with_url(api_base_url: String) -> (p: Self)
        ensures
            p.base_url() == api_base_url,
    {
        CustomProvider { api_base_url }
    }

    /// The configured base address.
    pub closed spec fn base_url(&self) -> String {
        self.api_base_url
    }

    /// The name shown for the provider.
    pub fn provider_name(&self) -> (s: &'static str)
        ensures
            s@ == "Custom"@,
    {
        "Custom"
    }

    /// The balance endpoint: the base address without trailing `/`, then
    /// `/user/balance`.
    pub fn balance_url(&self) -> (s: String)
        ensures
            s@ == without_trailing_slashes(self.base_url()@) + "/user/balance"@,
    {
        let mut s = normalize_base_url(self.api_base_url.as_str());
        push_str(&mut s, "/user/balance");
        s
    }
}

/// The adapter chosen for a provider.
pub enum ProviderAdapter {
    DeepSeek(DeepSeekProvider),
    OpenAi(OpenAiProvider),
    Anthropic(AnthropicProvider),
    OpenRouter(OpenRouterProvider),
    Custom(CustomProvider),
}

/// The adapter for a provider type.
pub open spec fn adapter_for(a: ProviderAdapter, t: ProviderType, api_base_url: Seq<char>) -> bool {
    match t {
        ProviderType::DeepSeek => a is DeepSeek,
        ProviderType::OpenAi => a is OpenAi,
        ProviderType::Anthropic => a is Anthropic,
        ProviderType::OpenRouter => a is OpenRouter,
        ProviderType::Custom => a matches ProviderAdapter::Custom(c) && c.base_url()@ == api_base_url,
    }
}

impl ProviderAdapter {
    /// The name shown for the provider.
    pub fn provider_name(&self) -> (s: &'static str)
        ensures
            self is DeepSeek ==> s@ == "DeepSeek"@,
            self is OpenAi ==> s@ == "OpenAI"@,
            self is Anthropic ==> s@ == "Anthropic"@,
            self is OpenRouter ==> s@ == "OpenRouter"@,
            self is Custom ==> s@ == "Custom"@,
    {
        match self {
            ProviderAdapter::DeepSeek(p) => p.provider_name(),
            ProviderAdapter::OpenAi(p) => p.provider_name(),
            ProviderAdapter::Anthropic(p) => p.provider_name(),
            ProviderAdapter::OpenRouter(p) => p.provider_name(),
            ProviderAdapter::Custom(p) => p.provider_name(),
        }
    }

    /// The balance endpoint of the provider.
    pub fn balance_url(&self) -> (s: String)
        ensures
            self is DeepSeek ==> s@ == "https://api.deepseek.com/user/balance"@,
            self is OpenAi ==> s@ == "https://api.openai.com/v1/dashboard/billing/credit_grants"@,
            self is Anthropic ==> s@ == "https://api.anthropic.com/v1/account"@,
            self is OpenRouter ==> s@ == "https://openrouter.ai/api/v1/auth/key"@,
            self matches ProviderAdapter::Custom(c) ==> s@ == without_trailing_slashes(c.base_url()@)
                + "/user/balance"@,
    {
        match self {
            ProviderAdapter::DeepSeek(p) => p.balance_url(),
            ProviderAdapter::OpenAi(p) => p.balance_url(),
            ProviderAdapter::Anthropic(p) => p.balance_url(),
            ProviderAdapter::OpenRouter(p) => p.balance_url(),
            ProviderAdapter::Custom(p) => p.balance_url(),
        }
    }
}

fn adapter(provider_type: &ProviderType, api_base_url: &str) -> (a: ProviderAdapter)
    ensures
        adapter_for(a, *provider_type, api_base_url@),
{
    match provider_type {
        ProviderType::DeepSeek => ProviderAdapter::DeepSeek(DeepSeekProvider::new()),
        ProviderType::OpenAi => ProviderAdapter::OpenAi(OpenAiProvider::new()),
        ProviderType::Anthropic => ProviderAdapter::Anthropic(AnthropicProvider::new()),
        ProviderType::OpenRouter => ProviderAdapter::OpenRouter(OpenRouterProvider::new()),
        ProviderType::Custom => ProviderAdapter::Custom(CustomProvider::with_url(owned(api_base_url))),
    }
}

/// The adapter that queries balances for a provider type; the custom
/// adapter uses the given base address.
pub fn create_balance_provider(provider_type: &ProviderType, api_base_url: &str) -> (a: ProviderAdapter)
    ensures
        adapter_for(a, *provider_type, api_base_url@),
{
    adapter(provider_type, api_base_url)
}

/// The adapter that queries usage for a provider type; the custom adapter
/// uses the given base address.
pub fn create_usage_provider(provider_type: &ProviderType, api_base_url: &str) -> (a: ProviderAdapter)
    ensures
        adapter_for(a, *provider_type, api_base_url@),
{
    adapter(provider_type, api_base_url)
}

} // verus!
