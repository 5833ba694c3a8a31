//! What the monitor watches and how: the service list and global settings.
use vstd::prelude::*;
use crate::text::owned;

verus! {

/// One extra HTTP header sent with a check request.
#[derive(Debug)]
pub struct HeaderPair {
    pub key: String,
    pub value: String,
}

impl Clone for HeaderPair {
    fn clone(&self) -> (r: Self)
        ensures
            r == *self,
    {
        HeaderPair { key: self.key.clone(), value: self.value.clone() }
    }
}

/// How one API service is monitored.
#[derive(Debug)]
pub struct ServiceConfig {
    pub id: String,
    pub name: String,
    pub url: String,
    pub method: String,
    pub interval_secs: u64,
    pub timeout_secs: u64,
    pub expected_status: u16,
    pub headers: Vec<HeaderPair>,
    pub body: Option<String>,
}

/// The value of a [`ServiceConfig`], with texts as character sequences.
pub struct ServiceConfigView {
    pub id: Seq<char>,
    pub name: Seq<char>,
    pub url: Seq<char>,
    pub method: Seq<char>,
    pub interval_secs: u64,
    pub timeout_secs: u64,
    pub expected_status: u16,
    pub headers: Seq<HeaderPair>,
    pub body: Option<Seq<char>>,
}

/// The characters of an optional text.
pub open spec fn opt_view(s: Option<String>) -> Option<Seq<char>> {
    match s {
        Some(t) => Some(t@),
        None => None,
    }
}

/// A copy of an optional text.
pub fn clone_opt(s: &Option<String>) -> (r: Option<String>)
    ensures
        r == *s,
{
    match s {
        Some(t) => Some(t.clone()),
        None => None,
    }
}

impl View for ServiceConfig {
    type V = ServiceConfigView;

    open spec fn view(&self) -> ServiceConfigView {
        ServiceConfigView {
            id: self.id@,
            name: self.name@,
            url: self.url@,
            method: self.method@,
            interval_secs: self.interval_secs,
            timeout_secs: self.timeout_secs,
            expected_status: self.expected_status,
            headers: self.headers@,
            body: opt_view(self.body),
        }
    }
}

/// A copy of a list of headers.
pub fn clone_headers(headers: &Vec<HeaderPair>) -> (r: Vec<HeaderPair>)
    ensures
        r@ == headers@,
{
    let mut r: Vec<HeaderPair> = Vec::new();
    let mut i: usize = 0;
    while i < headers.len()
        invariant
            i <= headers@.len(),
            r@ == headers@.take(i as int),
        decreases headers@.len() - i,
    {
        r.push(headers[i].clone());
        i = i + 1;
        assert(r@ =~= headers@.take(i as int));
    }
    assert(headers@.take(headers@.len() as int) =~= headers@);
    r
}

impl Clone for ServiceConfig {
    fn clone(&self) -> (r: Self)
        ensures
            r@ == self@,
    {
        ServiceConfig {
            id: self.id.clone(),
            name: self.name.clone(),
            url: self.url.clone(),
            method: self.method.clone(),
            interval_secs: self.interval_secs,
            timeout_secs: self.timeout_secs,
            expected_status: self.expected_status,
            headers: clone_headers(&self.headers),
            body: clone_opt(&self.body),
        }
    }
}

/// The default check interval, in seconds.
pub fn default_refresh_interval() -> (r: u64)
    ensures
        r == 30,
{
    30
}

/// The default of settings that are on unless configured off.
pub fn default_true() -> (r: bool)
    ensures
        r,
{
    true
}

/// The default number of days that check history is kept.
pub fn default_history_days() -> (r: u32)
    ensures
        r == 7,
{
    7
}

/// Global monitor settings.
#[derive(Clone, Copy, Debug)]
pub struct AppSettings {
    pub default_interval_secs: u64,
    pub notifications_enabled: bool,
    pub auto_start: bool,
    pub history_days: u32,
    pub start_minimized: bool,
}

impl Default for AppSettings {
    fn default() -> (s: Self)
        ensures
            s.default_interval_secs == 30,
            s.notifications_enabled,
            !s.auto_start,
            s.history_days == 7,
            !s.start_minimized,
    {
        AppSettings {
            default_interval_secs: default_refresh_interval(),
            notifications_enabled: default_true(),
            auto_start: false,
            history_days: default_history_days(),
            start_minimized: false,
        }
    }
}

/// The whole monitor configuration file.
pub struct AppConfig {
    pub services: Vec<ServiceConfig>,
    pub settings: AppSettings,
}

/// A fresh service id: `uuid::Uuid::new_v4()` rendered by `to_string`, a random
/// version-4 UUID in hyphenated form, always 36 characters long.
#[verifier::external_body]
pub(crate) fn new_service_id() -> (id: String)
    ensures
        id@.len() == 36,
{
    uuid::Uuid::new_v4().to_string()
}

/// A service that is checked with a plain `GET` every 30 seconds, a 10 second
/// timeout and an expected status of 200.
pub open spec fn is_default_get_check(s: ServiceConfigView, name: Seq<char>, url: Seq<char>) -> bool {
    &&& s.id.len() == 36
    &&& s.name == name
    &&& s.url == url
    &&& s.method == "GET"@
    &&& s.interval_secs == 30
    &&& s.timeout_secs == 10
    &&& s.expected_status == 200
    &&& s.headers.len() == 0
    &&& s.body is None
}

fn default_service(name: &str, url: &str) -> (s: ServiceConfig)
    ensures
        is_default_get_check(s@, name@, url@),
{
    ServiceConfig {
        id: new_service_id(),
        name: owned(name),
        url: owned(url),
        method: owned("GET"),
        interval_secs: 30,
        timeout_secs: 10,
        expected_status: 200,
        headers: Vec::new(),
        body: None,
    }
}

impl Default for AppConfig {
    /// The configuration written on first start: two well-known sites checked
    /// every 30 seconds, each under a fresh random id, and default settings.
    fn default() -> (c: Self)
        ensures
            c.services@.len() == 2,
            is_default_get_check(c.services@[0]@, "百度"@, "https://www.baidu.com"@),
            is_default_get_check(c.services@[1]@, "哔哩哔哩"@, "https://www.bilibili.com"@),
            c.settings.default_interval_secs == 30,
            c.settings.notifications_enabled,
            !c.settings.auto_start,
            c.settings.history_days == 7,
            !c.settings.start_minimized,
    {
        let mut services: Vec<ServiceConfig> = Vec::new();
        services.push(default_service("百度", "https://www.baidu.com"));
        services.push(default_service("哔哩哔哩", "https://www.bilibili.com"));
        AppConfig { services, settings: AppSettings::default() }
    }
}

} // verus!
