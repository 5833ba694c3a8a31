//! The providers whose balances are tracked, the application settings, and
//! the edits the user makes to the provider list.
use vstd::prelude::*;
use crate::error::{AppError, AppErrorView};
use crate::text::{chars_equal, chars_of, owned, str_equal};

verus! {

/// The kind of API a provider speaks.
#[derive(PartialEq, Eq, Structural, Clone, Copy, Debug)]
pub enum ProviderType {
    DeepSeek,
    OpenAi,
    Anthropic,
    OpenRouter,
    Custom,
}

impl Default for ProviderType {
    fn default() -> (t: Self)
        ensures
            t == ProviderType::Custom,
    {
        ProviderType::Custom
    }
}

/// The stored name of a provider type (lowercase).
pub open spec fn stored_type_name(t: ProviderType) -> Seq<char> {
    match t {
        ProviderType::DeepSeek => "deepseek"@,
        ProviderType::OpenAi => "openai"@,
        ProviderType::Anthropic => "anthropic"@,
        ProviderType::OpenRouter => "openrouter"@,
        ProviderType::Custom => "custom"@,
    }
}

/// The provider type a stored name denotes: the lowercase names, and the
/// older snake-case names `deep_seek`, `open_ai` and `open_router`.
pub open spec fn type_named(s: Seq<char>) -> Option<ProviderType> {
    if s == "deepseek"@ || s == "deep_seek"@ {
        Some(ProviderType::DeepSeek)
    } else if s == "openai"@ || s == "open_ai"@ {
        Some(ProviderType::OpenAi)
    } else if s == "anthropic"@ {
        Some(ProviderType::Anthropic)
    } else if s == "openrouter"@ || s == "open_router"@ {
        Some(ProviderType::OpenRouter)
    } else if s == "custom"@ {
        Some(ProviderType::Custom)
    } else {
        None
    }
}

impl ProviderType {
    /// The name under which the type is stored.
    pub fn name(&self) -> (s: &'static str)
        ensures
            s@ == stored_type_name(*self),
    {
        match self {
            ProviderType::DeepSeek => "deepseek",
            ProviderType::OpenAi => "openai",
            ProviderType::Anthropic => "anthropic",
            ProviderType::OpenRouter => "openrouter",
            ProviderType::Custom => "custom",
        }
    }

    /// The type a stored name denotes, if any.
    pub fn from_name(s: &str) -> (t: Option<ProviderType>)
        ensures
            t == type_named(s@),
    {
        if str_equal(s, "deepseek") || str_equal(s, "deep_seek") {
            Some(ProviderType::DeepSeek)
        } else if str_equal(s, "openai") || str_equal(s, "open_ai") {
            Some(ProviderType::OpenAi)
        } else if str_equal(s, "anthropic") {
            Some(ProviderType::Anthropic)
        } else if str_equal(s, "openrouter") || str_equal(s, "open_router") {
            Some(ProviderType::OpenRouter)
        } else if str_equal(s, "custom") {
            Some(ProviderType::Custom)
        } else {
            None
        }
    }
}

/// Reading back the stored name of a provider type gives the same type.
pub proof fn lemma_type_name_roundtrip(t: ProviderType)
    ensures
        type_named(stored_type_name(t)) == Some(t),
{
    reveal_strlit("deepseek");
    reveal_strlit("deep_seek");
    reveal_strlit("openai");
    reveal_strlit("open_ai");
    reveal_strlit("anthropic");
    reveal_strlit("openrouter");
    reveal_strlit("open_router");
    reveal_strlit("custom");
    assert("deepseek"@.len() == 8);
    assert("deep_seek"@.len() == 9);
    assert("openai"@.len() == 6);
    assert("open_ai"@.len() == 7);
    assert("anthropic"@.len() == 9);
    assert("openrouter"@.len() == 10);
    assert("open_router"@.len() == 11);
    assert("custom"@.len() == 6);
    assert("deep_seek"@[0] != "anthropic"@[0]);
    assert("openai"@[0] != "custom"@[0]);
}

/// A provider whose balance is tracked.
#[derive(Debug)]
pub struct ProviderConfig {
    pub id: String,
    pub name: String,
    pub provider_type: ProviderType,
    pub api_base_url: String,
    pub display_name: String,
    pub refresh_interval_seconds: u64,
    /// The warning threshold percentage, as the IEEE 754 bit pattern of an
    /// `f64` (`f64::to_bits`); the library stores it and never computes with it.
    pub warning_threshold_bits: u64,
    pub enabled: bool,
}

impl Clone for ProviderConfig {
    fn clone(&self) -> (r: Self)
        ensures
            r == *self,
    {
        ProviderConfig {
            id: self.id.clone(),
            name: self.name.clone(),
            provider_type: self.provider_type,
            api_base_url: self.api_base_url.clone(),
            display_name: self.display_name.clone(),
            refresh_interval_seconds: self.refresh_interval_seconds,
            warning_threshold_bits: self.warning_threshold_bits,
            enabled: self.enabled,
        }
    }
}

/// Application settings.
#[derive(Debug)]
pub struct AppSettings {
    pub theme: String,
    pub auto_start: bool,
    pub global_refresh_interval: u64,
    pub show_notifications: bool,
    pub window_position: Option<(i32, i32)>,
}

impl Clone for AppSettings {
    fn clone(&self) -> (r: Self)
        ensures
            r == *self,
    {
        AppSettings {
            theme: self.theme.clone(),
            auto_start: self.auto_start,
            global_refresh_interval: self.global_refresh_interval,
            show_notifications: self.show_notifications,
            window_position: self.window_position,
        }
    }
}

impl Default for AppSettings {
    fn default() -> (s: Self)
        ensures
            s.theme@ == "dark"@,
            !s.auto_start,
            s.global_refresh_interval == 300,
            s.show_notifications,
            s.window_position is None,
    {
        AppSettings {
            theme: owned("dark"),
            auto_start: false,
            global_refresh_interval: 300,
            show_notifications: true,
            window_position: None,
        }
    }
}

/// The whole configuration file.
pub struct AppConfig {
    pub providers: Vec<ProviderConfig>,
    pub settings: AppSettings,
    pub version: String,
}

/// The bit pattern of the default warning threshold, 30.0.
pub const DEFAULT_WARNING_THRESHOLD_BITS: u64 = 0x403E000000000000;

/// `p` is a built-in provider entry: refreshed every 300 seconds, warned about
/// at 30% and enabled.
pub open spec fn is_builtin_provider(
    p: ProviderConfig,
    id: Seq<char>,
    name: Seq<char>,
    t: ProviderType,
    base_url: Seq<char>,
) -> bool {
    &&& p.id@ == id
    &&& p.name@ == name
    &&& p.provider_type == t
    &&& p.api_base_url@ == base_url
    &&& p.display_name@ == name
    &&& p.refresh_interval_seconds == 300
    &&& p.warning_threshold_bits == DEFAULT_WARNING_THRESHOLD_BITS
    &&& p.enabled
}

fn builtin_provider(id: &str, name: &str, t: ProviderType, base_url: &str) -> (p: ProviderConfig)
    ensures
        is_builtin_provider(p, id@, name@, t, base_url@),
{
    ProviderConfig {
        id: owned(id),
        name: owned(name),
        provider_type: t,
        api_base_url: owned(base_url),
        display_name: owned(name),
        refresh_interval_seconds: 300,
        warning_threshold_bits: DEFAULT_WARNING_THRESHOLD_BITS,
        enabled: true,
    }
}

impl Default for AppConfig {
    /// The configuration written on first start: the four built-in providers,
    /// default settings and version 0.1.0.
    fn default() -> (c: Self)
        ensures
            c.providers@.len() == 4,
            is_builtin_provider(
                c.providers@[0],
                "deepseek"@,
                "DeepSeek"@,
                ProviderType::DeepSeek,
                "https://api.deepseek.com"@,
            ),
            is_builtin_provider(
                c.providers@[1],
                "openai"@,
                "OpenAI"@,
                ProviderType::OpenAi,
                "https://api.openai.com"@,
            ),
            is_builtin_provider(
                c.providers@[2],
                "anthropic"@,
                "Anthropic"@,
                ProviderType::Anthropic,
                "https://api.anthropic.com"@,
            ),
            is_builtin_provider(
                c.providers@[3],
                "openrouter"@,
                "OpenRouter"@,
                ProviderType::OpenRouter,
                "https://openrouter.ai/api"@,
            ),
            c.settings.theme@ == "dark"@,
            !c.settings.auto_start,
            c.settings.global_refresh_interval == 300,
            c.settings.show_notifications,
            c.settings.window_position is None,
            c.version@ == "0.1.0"@,
    {
        let mut providers: Vec<ProviderConfig> = Vec::new();
        providers.push(
            builtin_provider("deepseek", "DeepSeek", ProviderType::DeepSeek, "https://api.deepseek.com"),
        );
        providers.push(builtin_provider("openai", "OpenAI", ProviderType::OpenAi, "https://api.openai.com"));
        providers.push(
            builtin_provider(
                "anthropic",
                "Anthropic",
                ProviderType::Anthropic,
                "https://api.anthropic.com",
            ),
        );
        providers.push(
            builtin_provider(
                "openrouter",
                "OpenRouter",
                ProviderType::OpenRouter,
                "https://openrouter.ai/api",
            ),
        );
        AppConfig { providers, settings: AppSettings::default(), version: owned("0.1.0") }
    }
}

/// Some provider has this id.
pub open spec fn has_provider(ps: Seq<ProviderConfig>, id: Seq<char>) -> bool {
    exists|i: int| 0 <= i < ps.len() && #[trigger] ps[i].id@ == id
}

/// `i` is the first index of a provider with this id.
pub open spec fn is_first_provider(ps: Seq<ProviderConfig>, id: Seq<char>, i: int) -> bool {
    0 <= i < ps.len() && ps[i].id@ == id && forall|k: int| 0 <= k < i ==> ps[k].id@ != id
}

/// No two providers share an id.
pub open spec fn ids_distinct(ps: Seq<ProviderConfig>) -> bool {
    forall|i: int, j: int| 0 <= i < ps.len() && 0 <= j < ps.len() && i != j ==> #[trigger] ps[i].id@ != #[trigger] ps[j].id@
}

/// The providers other than those with this id, in order.
pub open spec fn without_provider(ps: Seq<ProviderConfig>, id: Seq<char>) -> Seq<ProviderConfig>
    decreases ps.len(),
{
    if ps.len() == 0 {
        ps
    } else if ps.last().id@ == id {
        without_provider(ps.drop_last(), id)
    } else {
        without_provider(ps.drop_last(), id).push(ps.last())
    }
}

/// The index of the first provider with this id, if any.
pub fn position_of(ps: &Vec<ProviderConfig>, id: &str) -> (r: Option<usize>)
    ensures
        match r {
            Some(i) => is_first_provider(ps@, id@, i as int),
            None => !has_provider(ps@, id@),
        },
{
    let id_chars = chars_of(id);
    let mut i: usize = 0;
    while i < ps.len()
        invariant
            i <= ps@.len(),
            id_chars@ == id@,
            forall|k: int| 0 <= k < i ==> ps@[k].id@ != id@,
        decreases ps@.len() - i,
    {
        let pc = chars_of(ps[i].id.as_str());
        if chars_equal(pc.as_slice(), id_chars.as_slice()) {
            return Some(i);
        }
        i = i + 1;
    }
    None
}

/// Adds a provider unless one with the same id exists.
pub fn add_provider_to_config(config: &mut AppConfig, provider: ProviderConfig) -> (r: Result<
    ProviderConfig,
    AppError,
>)
    ensures
        final(config).settings == old(config).settings,
        final(config).version == old(config).version,
        has_provider(old(config).providers@, provider.id@) ==> (r matches Err(e) && e@
            == AppErrorView::DuplicateProvider(provider.id@) && final(config).providers@ == old(
            config).providers@),
        !has_provider(old(config).providers@, provider.id@) ==> (r matches Ok(p) && p == provider
            && final(config).providers@ == old(config).providers@.push(provider)),
{
    match position_of(&config.providers, provider.id.as_str()) {
        Some(_) => Err(AppError::DuplicateProvider(provider.id)),
        None => {
            let ghost p0 = provider;
            config.providers.push(provider.clone());
            Ok(provider)
        },
    }
}

/// Replaces the first provider with the given id by `updates` (whose own id
/// may differ).
pub fn update_provider_in_config(config: &mut AppConfig, provider_id: &str, updates: ProviderConfig) -> (r:
    Result<ProviderConfig, AppError>)
    ensures
        final(config).settings == old(config).settings,
        final(config).version == old(config).version,
        !has_provider(old(config).providers@, provider_id@) ==> (r matches Err(e) && e@
            == AppErrorView::ProviderNotFound(provider_id@) && final(config).providers@ == old(
            config).providers@),
        has_provider(old(config).providers@, provider_id@) ==> (r matches Ok(p) && p == updates
            && exists|i: int|
            is_first_provider(old(config).providers@, provider_id@, i) && final(config).providers@
                == old(config).providers@.update(i, updates)),
{
    match position_of(&config.providers, provider_id) {
        Some(i) => {
            let ghost u = updates;
            config.providers.set(i, updates.clone());
            assert(config.providers@ == old(config).providers@.update(i as int, u));
            Ok(updates)
        },
        None => Err(AppError::ProviderNotFound(owned(provider_id))),
    }
}

/// Removes every provider with the given id; nothing happens when there is none.
pub fn delete_provider_from_config(config: &mut AppConfig, provider_id: &str)
    ensures
        final(config).providers@ == without_provider(old(config).providers@, provider_id@),
        final(config).settings == old(config).settings,
        final(config).version == old(config).version,
{
    let id = chars_of(provider_id);
    let mut old_providers: Vec<ProviderConfig> = Vec::new();
    std::mem::swap(&mut config.providers, &mut old_providers);
    let ghost op = old_providers@;
    let mut kept: Vec<ProviderConfig> = Vec::new();
    for p in it: old_providers.into_iter()
        invariant
            it.seq() == op,
            id@ == provider_id@,
            kept@ == without_provider(op.take(it.index() as int), provider_id@),
    {
        let ghost i = it.index() as int;
        assert(op.take(i + 1).drop_last() =~= op.take(i));
        let pc = chars_of(p.id.as_str());
        if !chars_equal(pc.as_slice(), id.as_slice()) {
            kept.push(p);
        }
    }
    assert(op.take(op.len() as int) =~= op);
    config.providers = kept;
}

/// Enables or disables the first provider with the given id.
pub fn toggle_provider_in_config(config: &mut AppConfig, provider_id: &str, enabled: bool) -> (r: Result<
    (),
    AppError,
>)
    ensures
        final(config).settings == old(config).settings,
        final(config).version == old(config).version,
        !has_provider(old(config).providers@, provider_id@) ==> (r matches Err(e) && e@
            == AppErrorView::ProviderNotFound(provider_id@) && final(config).providers@ == old(
            config).providers@),
        has_provider(old(config).providers@, provider_id@) ==> (r is Ok && exists|i: int|
            is_first_provider(old(config).providers@, provider_id@, i) && final(config).providers@
                == old(config).providers@.update(
                i,
                ProviderConfig { enabled, ..old(config).providers@[i] },
            )),
{
    match position_of(&config.providers, provider_id) {
        Some(i) => {
            let mut p = config.providers[i].clone();
            p.enabled = enabled;
            let ghost q = p;
            config.providers.set(i, p);
            assert(config.providers@ == old(config).providers@.update(i as int, q));
            Ok(())
        },
        None => Err(AppError::ProviderNotFound(owned(provider_id))),
    }
}

/// Adding a provider keeps the provider ids distinct.
pub proof fn lemma_add_keeps_ids_distinct(ps: Seq<ProviderConfig>, p: ProviderConfig)
    requires
        ids_distinct(ps),
        !has_provider(ps, p.id@),
    ensures
        ids_distinct(ps.push(p)),
{
    assert forall|i: int, j: int| 0 <= i < ps.push(p).len() && 0 <= j < ps.push(p).len() && i != j implies
        #[trigger] ps.push(p)[i].id@ != #[trigger] ps.push(p)[j].id@ by {
        if i < ps.len() && j < ps.len() {
            assert(ps[i].id@ != ps[j].id@);
        } else if i < ps.len() {
            assert(ps[i].id@ != p.id@);
        } else {
            assert(ps[j].id@ != p.id@);
        }
    }
}

proof fn lemma_without_provider_members(ps: Seq<ProviderConfig>, id: Seq<char>)
    ensures
        forall|k: int| 0 <= k < without_provider(ps, id).len() ==> #[trigger] without_provider(ps, id)[k].id@ != id,
        forall|q: ProviderConfig| without_provider(ps, id).contains(q) <==> ps.contains(q) && q.id@ != id,
    decreases ps.len(),
{
    if ps.len() > 0 {
        lemma_without_provider_members(ps.drop_last(), id);
        let rest = without_provider(ps.drop_last(), id);
        assert forall|q: ProviderConfig| ps.contains(q) <==> ps.drop_last().contains(q) || q == ps.last() by {
            if ps.contains(q) {
                let i = choose|i: int| 0 <= i < ps.len() && ps[i] == q;
                if i < ps.len() - 1 {
                    assert(ps.drop_last()[i] == q);
                }
            }
            if ps.drop_last().contains(q) {
                let i = choose|i: int| 0 <= i < ps.drop_last().len() && ps.drop_last()[i] == q;
                assert(ps[i] == q);
            }
            if q == ps.last() {
                assert(ps[ps.len() - 1] == q);
            }
        }
        if ps.last().id@ != id {
            assert forall|q: ProviderConfig| rest.push(ps.last()).contains(q) <==> rest.contains(q) || q == ps.last() by {
                if rest.push(ps.last()).contains(q) {
                    let i = choose|i: int| 0 <= i < rest.push(ps.last()).len() && rest.push(ps.last())[i] == q;
                    if i < rest.len() {
                        assert(rest[i] == q);
                    }
                }
                if rest.contains(q) {
                    let i = choose|i: int| 0 <= i < rest.len() && rest[i] == q;
                    assert(rest.push(ps.last())[i] == q);
                }
                if q == ps.last() {
                    assert(rest.push(ps.last())[rest.len() as int] == q);
                }
            }
        }
    }
}

/// After deleting a provider, no provider has its id, and every other
/// provider is still there.
pub proof fn lemma_delete_removes_only_that_id(ps: Seq<ProviderConfig>, id: Seq<char>)
    ensures
        !has_provider(without_provider(ps, id), id),
        forall|q: ProviderConfig| q.id@ != id ==> (without_provider(ps, id).contains(q) <==> ps.contains(q)),
{
    lemma_without_provider_members(ps, id);
}

/// Deleting a provider is idempotent: deleting the same id again changes
/// nothing, and deleting an id that no provider has changes nothing.
pub proof fn lemma_delete_idempotent(ps: Seq<ProviderConfig>, id: Seq<char>)
    ensures
        without_provider(without_provider(ps, id), id) == without_provider(ps, id),
        !has_provider(ps, id) ==> without_provider(ps, id) == ps,
    decreases ps.len(),
{
    if ps.len() > 0 {
        lemma_delete_idempotent(ps.drop_last(), id);
        let rest = without_provider(ps.drop_last(), id);
        if ps.last().id@ != id {
            assert(rest.push(ps.last()).drop_last() =~= rest);
            assert(rest.push(ps.last()).last() == ps.last());
        }
        if !has_provider(ps, id) {
            assert(!has_provider(ps.drop_last(), id)) by {
                if has_provider(ps.drop_last(), id) {
                    let i = choose|i: int| 0 <= i < ps.drop_last().len() && #[trigger] ps.drop_last()[i].id@ == id;
                    assert(ps[i].id@ == id);
                }
            }
            assert(ps[ps.len() - 1].id@ != id);
            assert(ps.drop_last().push(ps.last()) =~= ps);
        }
    }
}

} // verus!
