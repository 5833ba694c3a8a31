//! The monitor's run-time state: the configured services, the latest result
//! of each, and the history of checks.
use vstd::prelude::*;
use crate::keyed::StringMap;
use crate::monitor::config::{clone_opt, new_service_id, AppConfig, AppSettings, ServiceConfig, ServiceConfigView};
use crate::monitor::safety::{service_error, validate_service};
use crate::text::{chars_equal, chars_of, decimal, owned, push_decimal, push_str};
use vstd::std_specs::iter::IteratorSpec;

verus! {

/// The outcome of one check of a service.
#[derive(Debug)]
pub struct CheckResult {
    pub service_id: String,
    pub name: String,
    pub url: String,
    pub status: u16,
    pub healthy: bool,
    pub response_time_ms: u64,
    pub error: Option<String>,
    pub checked_at: String,
}

impl Clone for CheckResult {
    fn clone(&self) -> (r: Self)
        ensures
            r == *self,
    {
        CheckResult {
            service_id: self.service_id.clone(),
            name: self.name.clone(),
            url: self.url.clone(),
            status: self.status,
            healthy: self.healthy,
            response_time_ms: self.response_time_ms,
            error: clone_opt(&self.error),
            checked_at: self.checked_at.clone(),
        }
    }
}

/// One entry of the check history.
#[derive(Debug)]
pub struct CheckRecord {
    pub service_id: String,
    pub healthy: bool,
    pub response_time_ms: u64,
    pub status: u16,
    pub checked_at: String,
}

impl Clone for CheckRecord {
    fn clone(&self) -> (r: Self)
        ensures
            r == *self,
    {
        CheckRecord {
            service_id: self.service_id.clone(),
            healthy: self.healthy,
            response_time_ms: self.response_time_ms,
            status: self.status,
            checked_at: self.checked_at.clone(),
        }
    }
}

/// What is saved of the monitor state between runs.
pub struct PersistentStore {
    pub history: Vec<CheckRecord>,
}

impl Default for PersistentStore {
    fn default() -> (s: Self)
        ensures
            s.history@.len() == 0,
    {
        PersistentStore { history: Vec::new() }
    }
}

/// The summary of a service shown to the user. The uptime percentage is
/// `(total_checks - failed_checks) / total_checks`, or 100% without checks.
#[derive(Debug)]
pub struct ServiceStatus {
    pub service_id: String,
    pub name: String,
    pub url: String,
    pub last_check: Option<CheckResult>,
    pub avg_response_ms: u64,
    pub total_checks: u64,
    pub failed_checks: u64,
}

/// The run-time state of the monitor.
pub struct AppState {
    pub services: Vec<ServiceConfig>,
    pub latest_results: StringMap<CheckResult>,
    pub history: Vec<CheckRecord>,
    pub settings: AppSettings,
}

/// How many history records belong to the service.
pub open spec fn count_for(h: Seq<CheckRecord>, id: Seq<char>) -> nat
    decreases h.len(),
{
    if h.len() == 0 {
        0
    } else {
        count_for(h.drop_last(), id) + if h.last().service_id@ == id {
            1nat
        } else {
            0nat
        }
    }
}

/// How many history records of the service are unhealthy.
pub open spec fn failed_for(h: Seq<CheckRecord>, id: Seq<char>) -> nat
    decreases h.len(),
{
    if h.len() == 0 {
        0
    } else {
        failed_for(h.drop_last(), id) + if h.last().service_id@ == id && !h.last().healthy {
            1nat
        } else {
            0nat
        }
    }
}

/// The total response time of the service's history records, in ms.
pub open spec fn sum_ms_for(h: Seq<CheckRecord>, id: Seq<char>) -> nat
    decreases h.len(),
{
    if h.len() == 0 {
        0
    } else {
        sum_ms_for(h.drop_last(), id) + if h.last().service_id@ == id {
            h.last().response_time_ms as nat
        } else {
            0nat
        }
    }
}

/// The service has a latest result, and it is healthy.
pub open spec fn is_healthy_in(latest: Map<Seq<char>, CheckResult>, id: Seq<char>) -> bool {
    latest.contains_key(id) && latest[id].healthy
}

/// How many of the services have a healthy latest result.
pub open spec fn healthy_count(services: Seq<ServiceConfig>, latest: Map<Seq<char>, CheckResult>) -> nat
    decreases services.len(),
{
    if services.len() == 0 {
        0
    } else {
        healthy_count(services.drop_last(), latest) + if is_healthy_in(latest, services.last().id@) {
            1nat
        } else {
            0nat
        }
    }
}

/// Every service has a latest result and all of them are healthy.
pub open spec fn all_healthy_in(services: Seq<ServiceConfig>, latest: Map<Seq<char>, CheckResult>) -> bool {
    forall|i: int| 0 <= i < services.len() ==> is_healthy_in(latest, #[trigger] services[i].id@)
}

/// The latest result of a service, if any.
pub open spec fn latest_of(latest: Map<Seq<char>, CheckResult>, id: Seq<char>) -> Option<CheckResult> {
    if latest.contains_key(id) {
        Some(latest[id])
    } else {
        None
    }
}

/// `st` summarizes `svc` over the history and latest results.
pub open spec fn summarizes(
    st: ServiceStatus,
    svc: ServiceConfig,
    history: Seq<CheckRecord>,
    latest: Map<Seq<char>, CheckResult>,
) -> bool {
    let total = count_for(history, svc.id@);
    &&& st.service_id@ == svc.id@
    &&& st.name@ == svc.name@
    &&& st.url@ == svc.url@
    &&& st.last_check == latest_of(latest, svc.id@)
    &&& st.total_checks == total
    &&& st.failed_checks == failed_for(history, svc.id@)
    &&& st.avg_response_ms == if total == 0 {
        0
    } else {
        sum_ms_for(history, svc.id@) / total
    }
}

proof fn lemma_prefix_sums(h: Seq<CheckRecord>, id: Seq<char>, j: int)
    requires
        0 <= j <= h.len(),
    ensures
        sum_ms_for(h.take(j), id) <= sum_ms_for(h, id),
        count_for(h.take(j), id) <= count_for(h, id),
        failed_for(h.take(j), id) <= count_for(h.take(j), id),
    decreases h.len(),
{
    if j == h.len() {
        assert(h.take(j) =~= h);
        lemma_failed_le_count(h, id);
    } else {
        assert(h.drop_last().take(j) =~= h.take(j));
        lemma_prefix_sums(h.drop_last(), id, j);
    }
}

proof fn lemma_sum_le_count_times_max(h: Seq<CheckRecord>, id: Seq<char>)
    ensures
        sum_ms_for(h, id) <= count_for(h, id) * 0xffff_ffff_ffff_ffff,
    decreases h.len(),
{
    if h.len() > 0 {
        lemma_sum_le_count_times_max(h.drop_last(), id);
    }
}

proof fn lemma_count_le_len(h: Seq<CheckRecord>, id: Seq<char>)
    ensures
        count_for(h, id) <= h.len(),
    decreases h.len(),
{
    if h.len() > 0 {
        lemma_count_le_len(h.drop_last(), id);
    }
}

proof fn lemma_failed_le_count(h: Seq<CheckRecord>, id: Seq<char>)
    ensures
        failed_for(h, id) <= count_for(h, id),
    decreases h.len(),
{
    if h.len() > 0 {
        lemma_failed_le_count(h.drop_last(), id);
    }
}

/// The services other than those with the given id, in order.
pub open spec fn without_service(s: Seq<ServiceConfig>, id: Seq<char>) -> Seq<ServiceConfig>
    decreases s.len(),
{
    if s.len() == 0 {
        s
    } else if s.last().id@ == id {
        without_service(s.drop_last(), id)
    } else {
        without_service(s.drop_last(), id).push(s.last())
    }
}

/// The history records of services other than the given one, in order.
pub open spec fn without_records(h: Seq<CheckRecord>, id: Seq<char>) -> Seq<CheckRecord>
    decreases h.len(),
{
    if h.len() == 0 {
        h
    } else if h.last().service_id@ == id {
        without_records(h.drop_last(), id)
    } else {
        without_records(h.drop_last(), id).push(h.last())
    }
}

/// An instant as seconds since the Unix epoch and nanoseconds past that second.
pub type Instant = (i64, u32);

/// `a` is strictly later than `b`.
pub open spec fn is_later(a: Instant, b: Instant) -> bool {
    a.0 > b.0 || (a.0 == b.0 && a.1 > b.1)
}

/// What `chrono::DateTime::parse_from_rfc3339` makes of a text: the instant it
/// names (`timestamp` and `timestamp_subsec_nanos`), or `None` when the text is
/// not an RFC 3339 date and time.
pub uninterp spec fn rfc3339_instant(text: Seq<char>) -> Option<(i64, u32)>;

/// Parses an RFC 3339 timestamp with `chrono::DateTime::parse_from_rfc3339`
/// and reads its instant back with `timestamp` and `timestamp_subsec_nanos`.
/// The contract ties the result to `rfc3339_instant` of the text only.
#[verifier::external_body]
pub(crate) fn parse_rfc3339(text: &str) -> (r: Option<(i64, u32)>)
    ensures
        r == rfc3339_instant(text@),
{
    match chrono::DateTime::parse_from_rfc3339(text) {
        Ok(dt) => Some((dt.timestamp(), dt.timestamp_subsec_nanos())),
        Err(_) => None,
    }
}

/// What `chrono::DateTime::to_rfc3339` writes for the instant `secs` seconds
/// and `nanos` nanoseconds after the Unix epoch, shown at a fixed offset of
/// `offset` seconds east of UTC.
pub uninterp spec fn rfc3339_text(secs: i64, nanos: u32, offset: i32) -> Seq<char>;

/// `text` is what `to_rfc3339` writes for that instant at that offset, a time
/// after the epoch. Below year 10000 (local) and at an offset of whole minutes
/// it reads back with `parse_from_rfc3339` as the same instant.
pub open spec fn stamps(text: Seq<char>, secs: i64, nanos: u32, offset: i32) -> bool {
    &&& secs >= 0
    &&& nanos < 1_000_000_000
    &&& -86400 < offset < 86400
    &&& text == rfc3339_text(secs, nanos, offset)
    &&& (offset % 60 == 0 && secs + offset < 253402300800 ==> rfc3339_instant(text) == Some(
        (secs, nanos),
    ))
}

/// `text` is the RFC 3339 time stamp, in UTC, of some instant after the epoch.
pub open spec fn is_utc_stamp(text: Seq<char>) -> bool {
    exists|secs: i64, nanos: u32| #[trigger] stamps(text, secs, nanos, 0)
}

/// The current time: seconds and nanoseconds since the Unix epoch, and the
/// same instant in RFC 3339 form (UTC).
pub struct CurrentTime {
    /// Seconds since the Unix epoch.
    pub secs: i64,
    /// Nanoseconds past that second.
    pub nanos: u32,
    /// The same instant in RFC 3339 form, as `to_rfc3339` writes it.
    pub rfc3339: String,
}

/// Reads the system clock: `std::time::SystemTime::now()` measured with
/// `duration_since(UNIX_EPOCH)`, as whole seconds (`Duration::as_secs`) and
/// the nanoseconds past them (`Duration::subsec_nanos`, documented to be below
/// one billion). `None` when the clock is set before 1970. Which time it
/// reads depends on the moment of the call and is not claimed.
#[verifier::external_body]
fn system_clock() -> (r: Option<(u64, u32)>)
    ensures
        r matches Some(d) ==> d.1 < 1_000_000_000,
{
    match std::time::SystemTime::now().duration_since(std::time::UNIX_EPOCH) {
        Ok(d) => Some((d.as_secs(), d.subsec_nanos())),
        Err(_) => None,
    }
}

/// Writes an instant in RFC 3339 form in UTC with
/// `chrono::DateTime::from_timestamp` and `to_rfc3339`; `None` when chrono
/// cannot represent the instant. From 1970 to the end of year 9999, with
/// nanoseconds below one billion, it always can, and `parse_from_rfc3339`
/// reads the four-digit-year text back as the same instant.
#[verifier::external_body]
fn utc_rfc3339(secs: i64, nanos: u32) -> (r: Option<String>)
    ensures
        r is Some ==> r.unwrap()@ == rfc3339_text(secs, nanos, 0),
        (0 <= secs < 253402300800 && nanos < 1_000_000_000) ==> r is Some,
        (0 <= secs < 253402300800 && nanos < 1_000_000_000) ==> rfc3339_instant(r.unwrap()@) == Some((secs, nanos)),
{
    match chrono::DateTime::from_timestamp(secs, nanos) {
        Some(t) => Some(t.to_rfc3339()),
        None => None,
    }
}

/// The Unix epoch as a current time.
fn epoch() -> (t: CurrentTime)
    ensures
        t.secs == 0,
        t.nanos == 0,
        stamps(t.rfc3339@, t.secs, t.nanos, 0),
{
    match utc_rfc3339(0, 0) {
        Some(text) => CurrentTime { secs: 0, nanos: 0, rfc3339: text },
        None => vstd::pervasive::unreached(),
    }
}

/// Reads the current time from the system clock. Which time it reads depends
/// on the moment of the call and is not claimed. A clock set before 1970, or
/// beyond what chrono can represent, reads as the Unix epoch, so the time is
/// never before 1970 and its text is what `to_rfc3339` writes for it in UTC.
pub fn current_time() -> (t: CurrentTime)
    ensures
        stamps(t.rfc3339@, t.secs, t.nanos, 0),
{
    match system_clock() {
        Some((secs, nanos)) => {
            if secs <= 0x7fff_ffff_ffff_ffff {
                let s = secs as i64;
                match utc_rfc3339(s, nanos) {
                    Some(text) => {
                        return CurrentTime { secs: s, nanos, rfc3339: text };
                    },
                    None => {},
                }
            }
        },
        None => {},
    }
    epoch()
}

/// A history record survives pruning when its time is later than the cutoff,
/// or when its time does not parse.
pub open spec fn survives_prune(r: CheckRecord, cutoff: Instant) -> bool {
    match rfc3339_instant(r.checked_at@) {
        Some(t) => is_later(t, cutoff),
        None => true,
    }
}

/// The records that survive pruning, in order.
pub open spec fn pruned(h: Seq<CheckRecord>, cutoff: Instant) -> Seq<CheckRecord>
    decreases h.len(),
{
    if h.len() == 0 {
        h
    } else if survives_prune(h.last(), cutoff) {
        pruned(h.drop_last(), cutoff).push(h.last())
    } else {
        pruned(h.drop_last(), cutoff)
    }
}

/// The most days of history that are kept.
pub const MAX_HISTORY_DAYS: u32 = 365;

/// The cutoff for keeping `days` days of history (at most 365) before `now`;
/// the earliest representable second when that lies before it.
pub open spec fn cutoff_before(now: Instant, days: u32) -> Instant {
    let d: int = if days > 365 {
        365
    } else {
        days as int
    };
    let secs = now.0 - d * 86400;
    if secs < i64::MIN {
        (i64::MIN, now.1)
    } else {
        (secs as i64, now.1)
    }
}

/// The cutoff for keeping `days` days of history before `now`.
pub fn history_cutoff(now_secs: i64, now_nanos: u32, days: u32) -> (c: Instant)
    ensures
        c == cutoff_before((now_secs, now_nanos), days),
{
    let d: i64 = if days > MAX_HISTORY_DAYS {
        MAX_HISTORY_DAYS as i64
    } else {
        days as i64
    };
    let span: i64 = d * 86400;
    if now_secs < i64::MIN + span {
        (i64::MIN, now_nanos)
    } else {
        (now_secs - span, now_nanos)
    }
}

/// The service limit message.
pub open spec fn too_many_services_message() -> Seq<char> {
    "服务数量已达上限 ("@ + decimal(100) + ")"@
}

/// The most services the monitor watches.
pub const MAX_SERVICES: usize = 100;

/// `svc` is `service` under the id it is stored with: its own id when it has
/// one, otherwise a fresh 36-character id.
pub open spec fn stored_as(svc: ServiceConfigView, service: ServiceConfigView) -> bool {
    &&& svc == ServiceConfigView { id: svc.id, ..service }
    &&& service.id.len() > 0 ==> svc.id == service.id
    &&& service.id.len() == 0 ==> svc.id.len() == 36
}

/// The first index of a service with the given id.
pub open spec fn is_first_with_id(s: Seq<ServiceConfig>, id: Seq<char>, i: int) -> bool {
    0 <= i < s.len() && s[i].id@ == id && forall|k: int| 0 <= k < i ==> s[k].id@ != id
}

proof fn lemma_pruned_members(h: Seq<CheckRecord>, cutoff: Instant)
    ensures
        forall|r: CheckRecord| pruned(h, cutoff).contains(r) <==> h.contains(r) && survives_prune(r, cutoff),
        pruned(h, cutoff).len() <= h.len(),
    decreases h.len(),
{
    if h.len() > 0 {
        let front = h.drop_last();
        lemma_pruned_members(front, cutoff);
        let rest = pruned(front, cutoff);
        assert forall|r: CheckRecord| h.contains(r) <==> front.contains(r) || r == h.last() by {
            if h.contains(r) {
                let i = choose|i: int| 0 <= i < h.len() && h[i] == r;
                if i < h.len() - 1 {
                    assert(front[i] == r);
                }
            }
            if front.contains(r) {
                let i = choose|i: int| 0 <= i < front.len() && front[i] == r;
                assert(h[i] == r);
            }
            if r == h.last() {
                assert(h[h.len() - 1] == r);
            }
        }
        if survives_prune(h.last(), cutoff) {
            assert forall|r: CheckRecord| rest.push(h.last()).contains(r) <==> rest.contains(r) || r == h.last() by {
                if rest.push(h.last()).contains(r) {
                    let i = choose|i: int| 0 <= i < rest.push(h.last()).len() && rest.push(h.last())[i] == r;
                    if i < rest.len() {
                        assert(rest[i] == r);
                    }
                }
                if rest.contains(r) {
                    let i = choose|i: int| 0 <= i < rest.len() && rest[i] == r;
                    assert(rest.push(h.last())[i] == r);
                }
                if r == h.last() {
                    assert(rest.push(h.last())[rest.len() as int] == r);
                }
            }
        }
    }
}

/// Pruning keeps exactly the records that are later than the cutoff or whose
/// time does not parse; it never adds records.
pub proof fn lemma_prune_keeps_exactly(h: Seq<CheckRecord>, cutoff: Instant, r: CheckRecord)
    ensures
        pruned(h, cutoff).contains(r) <==> h.contains(r) && survives_prune(r, cutoff),
        h.contains(r) && rfc3339_instant(r.checked_at@) is None ==> pruned(h, cutoff).contains(r),
        pruned(h, cutoff).len() <= h.len(),
{
    lemma_pruned_members(h, cutoff);
}

proof fn lemma_without_records_ids(h: Seq<CheckRecord>, id: Seq<char>, k: int)
    requires
        0 <= k < without_records(h, id).len(),
    ensures
        without_records(h, id)[k].service_id@ != id,
    decreases h.len(),
{
    let front = h.drop_last();
    if h.last().service_id@ == id {
        lemma_without_records_ids(front, id, k);
    } else if k < without_records(front, id).len() {
        lemma_without_records_ids(front, id, k);
    }
}

proof fn lemma_without_service_ids(s: Seq<ServiceConfig>, id: Seq<char>, k: int)
    requires
        0 <= k < without_service(s, id).len(),
    ensures
        without_service(s, id)[k].id@ != id,
    decreases s.len(),
{
    let front = s.drop_last();
    if s.last().id@ == id {
        lemma_without_service_ids(front, id, k);
    } else if k < without_service(front, id).len() {
        lemma_without_service_ids(front, id, k);
    }
}

/// After a service is removed, no service, no latest result and no history
/// record of it remains.
pub proof fn lemma_removed_service_leaves_nothing(
    services: Seq<ServiceConfig>,
    latest: Map<Seq<char>, CheckResult>,
    history: Seq<CheckRecord>,
    id: Seq<char>,
)
    ensures
        forall|k: int| 0 <= k < without_service(services, id).len() ==> #[trigger] without_service(services, id)[k].id@ != id,
        !latest.remove(id).contains_key(id),
        forall|k: int| 0 <= k < without_records(history, id).len() ==> #[trigger] without_records(history, id)[k].service_id@ != id,
{
    assert forall|k: int| 0 <= k < without_service(services, id).len() implies #[trigger] without_service(services, id)[k].id@ != id by {
        lemma_without_service_ids(services, id, k);
    }
    assert forall|k: int| 0 <= k < without_records(history, id).len() implies #[trigger] without_records(history, id)[k].service_id@ != id by {
        lemma_without_records_ids(history, id, k);
    }
}

impl AppState {
    /// The state at start-up: the configured services and settings, with no
    /// results and no history yet.
    pub fn new(config: AppConfig) -> (s: Self)
        ensures
            s.services@ == config.services@,
            s.latest_results@ == Map::<Seq<char>, CheckResult>::empty(),
            s.history@.len() == 0,
            s.settings == config.settings,
    {
        AppState {
            services: config.services,
            latest_results: StringMap::new(),
            history: Vec::new(),
            settings: config.settings,
        }
    }

    /// Whether every service has a latest result and all are healthy (true
    /// when there are no services).
    pub fn all_healthy(&self) -> (r: bool)
        ensures
            r == all_healthy_in(self.services@, self.latest_results@),
    {
        let mut i: usize = 0;
        while i < self.services.len()
            invariant
                i <= self.services@.len(),
                forall|k: int| 0 <= k < i ==> is_healthy_in(self.latest_results@, #[trigger] self.services@[k].id@),
            decreases self.services@.len() - i,
        {
            match self.latest_results.get(self.services[i].id.as_str()) {
                Some(r) => {
                    if !r.healthy {
                        return false;
                    }
                },
                None => {
                    return false;
                },
            }
            i = i + 1;
        }
        true
    }

    /// The number of services whose latest result is healthy, and the number
    /// of services.
    pub fn health_summary(&self) -> (r: (usize, usize))
        ensures
            r.0 == healthy_count(self.services@, self.latest_results@),
            r.1 == self.services@.len(),
    {
        let mut healthy: usize = 0;
        let mut i: usize = 0;
        while i < self.services.len()
            invariant
                i <= self.services@.len(),
                healthy <= i,
                healthy == healthy_count(self.services@.take(i as int), self.latest_results@),
            decreases self.services@.len() - i,
        {
            let ghost pre = self.services@.take(i as int);
            assert(self.services@.take(i + 1).drop_last() =~= pre);
            let is_healthy = match self.latest_results.get(self.services[i].id.as_str()) {
                Some(r) => r.healthy,
                None => false,
            };
            if is_healthy {
                healthy = healthy + 1;
            }
            i = i + 1;
        }
        assert(self.services@.take(i as int) =~= self.services@);
        (healthy, self.services.len())
    }

    fn summary_of(&self, svc: &ServiceConfig) -> (st: ServiceStatus)
        ensures
            summarizes(st, *svc, self.history@, self.latest_results@),
    {
        let mut total: u64 = 0;
        let mut failed: u64 = 0;
        let mut sum_ms: u128 = 0;
        let mut j: usize = 0;
        let id = crate::text::chars_of(svc.id.as_str());
        while j < self.history.len()
            invariant
                j <= self.history@.len(),
                id@ == svc.id@,
                total == count_for(self.history@.take(j as int), svc.id@),
                failed == failed_for(self.history@.take(j as int), svc.id@),
                sum_ms == sum_ms_for(self.history@.take(j as int), svc.id@),
                total <= j,
            decreases self.history@.len() - j,
        {
            let ghost pre = self.history@.take(j as int);
            let ghost next = self.history@.take(j + 1);
            assert(next.drop_last() =~= pre);
            proof {
                lemma_prefix_sums(self.history@, svc.id@, j + 1);
                lemma_sum_le_count_times_max(pre, svc.id@);
                assert(total * 0xffff_ffff_ffff_ffffu128 <= j * 0xffff_ffff_ffff_ffffu128) by (
                nonlinear_arith)
                    requires
                        total <= j,
                ;
                assert(j < 0x1_0000_0000_0000_0000);
            }
            let r = &self.history[j];
            let rid = crate::text::chars_of(r.service_id.as_str());
            if crate::text::chars_equal(rid.as_slice(), id.as_slice()) {
                total = total + 1;
                if !r.healthy {
                    failed = failed + 1;
                }
                sum_ms = sum_ms + r.response_time_ms as u128;
            }
            j = j + 1;
        }
        assert(self.history@.take(j as int) =~= self.history@);
        let last_check = match self.latest_results.get(svc.id.as_str()) {
            Some(r) => Some(r.clone()),
            None => None,
        };
        let avg_response_ms: u64 = if total == 0 {
            0
        } else {
            proof {
                lemma_sum_le_count_times_max(self.history@, svc.id@);
                assert(sum_ms / (total as u128) <= 0xffff_ffff_ffff_ffffu128) by (nonlinear_arith)
                    requires
                        total > 0,
                        sum_ms <= total * 0xffff_ffff_ffff_ffffu128,
                ;
            }
            (sum_ms / (total as u128)) as u64
        };
        ServiceStatus {
            service_id: svc.id.clone(),
            name: svc.name.clone(),
            url: svc.url.clone(),
            last_check,
            avg_response_ms,
            total_checks: total,
            failed_checks: failed,
        }
    }

    /// The summary of every service, in configuration order. A service's
    /// summary counts its history records, the unhealthy ones among them and
    /// their mean response time (0 without records), and carries its latest
    /// result.
    pub fn all_statuses(&self) -> (r: Vec<ServiceStatus>)
        ensures
            r@.len() == self.services@.len(),
            forall|i: int|
                0 <= i < r@.len() ==> summarizes(
                    #[trigger] r@[i],
                    self.services@[i],
                    self.history@,
                    self.latest_results@,
                ),
    {
        let mut r: Vec<ServiceStatus> = Vec::new();
        let mut i: usize = 0;
        while i < self.services.len()
            invariant
                i <= self.services@.len(),
                r@.len() == i,
                forall|k: int|
                    0 <= k < i ==> summarizes(
                        #[trigger] r@[k],
                        self.services@[k],
                        self.history@,
                        self.latest_results@,
                    ),
            decreases self.services@.len() - i,
        {
            let st = self.summary_of(&self.services[i]);
            r.push(st);
            i = i + 1;
        }
        r
    }

    /// Forgets a service: its configuration, latest result and history.
    pub fn remove_service(&mut self, service_id: &str)
        ensures
            final(self).services@ == without_service(old(self).services@, service_id@),
            final(self).latest_results@ == old(self).latest_results@.remove(service_id@),
            final(self).history@ == without_records(old(self).history@, service_id@),
            final(self).settings == old(self).settings,
    {
        let id = chars_of(service_id);
        let mut old_services: Vec<ServiceConfig> = Vec::new();
        std::mem::swap(&mut self.services, &mut old_services);
        let ghost os = old_services@;
        let mut services: Vec<ServiceConfig> = Vec::new();
        for svc in it: old_services.into_iter()
            invariant
                it.seq() == os,
                id@ == service_id@,
                services@ == without_service(os.take(it.index() as int), service_id@),
        {
            let ghost i = it.index() as int;
            assert(os.take(i + 1).drop_last() =~= os.take(i));
            let sid = chars_of(svc.id.as_str());
            if !chars_equal(sid.as_slice(), id.as_slice()) {
                services.push(svc);
            }
        }
        assert(os.take(os.len() as int) =~= os);
        let mut old_history: Vec<CheckRecord> = Vec::new();
        std::mem::swap(&mut self.history, &mut old_history);
        let ghost oh = old_history@;
        let mut history: Vec<CheckRecord> = Vec::new();
        for rec in it: old_history.into_iter()
            invariant
                it.seq() == oh,
                id@ == service_id@,
                history@ == without_records(oh.take(it.index() as int), service_id@),
        {
            let ghost i = it.index() as int;
            assert(oh.take(i + 1).drop_last() =~= oh.take(i));
            let rid = chars_of(rec.service_id.as_str());
            if !chars_equal(rid.as_slice(), id.as_slice()) {
                history.push(rec);
            }
        }
        assert(oh.take(oh.len() as int) =~= oh);
        self.services = services;
        self.history = history;
        self.latest_results.remove(service_id);
    }

    /// Adds a service after validating it, giving it a fresh id when it has
    /// none. At most 100 services are kept.
    pub fn add_service(&mut self, service: ServiceConfig) -> (r: Result<ServiceConfig, String>)
        ensures
            final(self).latest_results@ == old(self).latest_results@,
            final(self).history@ == old(self).history@,
            final(self).settings == old(self).settings,
            match service_error(service@) {
                Some(m) => r matches Err(e) && e@ == m && final(self).services@ == old(self).services@,
                None => if old(self).services@.len() >= 100 {
                    r matches Err(e) && e@ == too_many_services_message() && final(self).services@
                        == old(self).services@
                } else {
                    r matches Ok(svc) && stored_as(svc@, service@) && final(self).services@.len()
                        == old(self).services@.len() + 1 && final(self).services@.drop_last()
                        == old(self).services@ && final(self).services@.last()@ == svc@
                },
            },
    {
        match validate_service(&service) {
            Err(e) => {
                return Err(e);
            },
            Ok(()) => {},
        }
        if self.services.len() >= MAX_SERVICES {
            let mut e = owned("服务数量已达上限 (");
            push_decimal(&mut e, MAX_SERVICES as u64);
            push_str(&mut e, ")");
            return Err(e);
        }
        let svc = if service.id.as_str().is_empty() {
            ServiceConfig { id: new_service_id(), ..service }
        } else {
            service
        };
        self.services.push(svc.clone());
        assert(self.services@.drop_last() =~= old(self).services@);
        Ok(svc)
    }

    /// Replaces the first service with the same id after validating the new
    /// settings.
    pub fn update_service(&mut self, service: ServiceConfig) -> (r: Result<(), String>)
        ensures
            final(self).latest_results@ == old(self).latest_results@,
            final(self).history@ == old(self).history@,
            final(self).settings == old(self).settings,
            match service_error(service@) {
                Some(m) => r matches Err(e) && e@ == m && final(self).services@ == old(self).services@,
                None => if exists|i: int| is_first_with_id(old(self).services@, service@.id, i) {
                    r is Ok && exists|i: int|
                        is_first_with_id(old(self).services@, service@.id, i) && final(self).services@
                            == old(self).services@.update(i, service)
                } else {
                    r matches Err(e) && e@ == "服务不存在"@ && final(self).services@
                        == old(self).services@
                },
            },
    {
        match validate_service(&service) {
            Err(e) => {
                return Err(e);
            },
            Ok(()) => {},
        }
        let id = chars_of(service.id.as_str());
        let mut i: usize = 0;
        while i < self.services.len()
            invariant
                i <= self.services@.len(),
                self.services@ == old(self).services@,
                self.latest_results@ == old(self).latest_results@,
                self.history@ == old(self).history@,
                self.settings == old(self).settings,
                service_error(service@) is None,
                id@ == service@.id,
                forall|k: int| 0 <= k < i ==> self.services@[k].id@ != service@.id,
            decreases self.services@.len() - i,
        {
            let sid = chars_of(self.services[i].id.as_str());
            if chars_equal(sid.as_slice(), id.as_slice()) {
                let ghost sv = service;
                proof {
                    assert(is_first_with_id(old(self).services@, service@.id, i as int));
                }
                self.services.set(i, service);
                assert(self.services@ == old(self).services@.update(i as int, sv));
                return Ok(());
            }
            i = i + 1;
        }
        proof {
            assert forall|j: int| !is_first_with_id(old(self).services@, service@.id, j) by {
                if 0 <= j < old(self).services@.len() {
                    assert(self.services@[j].id@ != service@.id);
                }
            }
        }
        Err(owned("服务不存在"))
    }

    /// The history, newest record first, limited to `limit` records when given.
    pub fn history_newest_first(&self, limit: Option<usize>) -> (r: Vec<CheckRecord>)
        ensures
            r@.len() == match limit {
                Some(n) => if n < self.history@.len() {
                    n as nat
                } else {
                    self.history@.len()
                },
                None => self.history@.len(),
            },
            forall|k: int| 0 <= k < r@.len() ==> #[trigger] r@[k] == self.history@[self.history@.len() - 1 - k],
    {
        let len = self.history.len();
        let count: usize = match limit {
            Some(n) => if n < len {
                n
            } else {
                len
            },
            None => len,
        };
        let mut r: Vec<CheckRecord> = Vec::new();
        let mut k: usize = 0;
        while k < count
            invariant
                count <= len,
                len == self.history@.len(),
                k <= count,
                r@.len() == k,
                forall|j: int| 0 <= j < k ==> #[trigger] r@[j] == self.history@[len - 1 - j],
            decreases count - k,
        {
            r.push(self.history[len - 1 - k].clone());
            k = k + 1;
        }
        r
    }

    /// Drops the history records whose time is at or before the cutoff;
    /// records whose time does not parse are kept.
    pub fn prune_history_before(&mut self, cutoff: Instant)
        ensures
            final(self).history@ == pruned(old(self).history@, cutoff),
            final(self).services@ == old(self).services@,
            final(self).latest_results@ == old(self).latest_results@,
            final(self).settings == old(self).settings,
    {
        let mut old_history: Vec<CheckRecord> = Vec::new();
        std::mem::swap(&mut self.history, &mut old_history);
        let ghost oh = old_history@;
        let mut history: Vec<CheckRecord> = Vec::new();
        for rec in it: old_history.into_iter()
            invariant
                it.seq() == oh,
                history@ == pruned(oh.take(it.index() as int), cutoff),
        {
            let ghost i = it.index() as int;
            assert(oh.take(i + 1).drop_last() =~= oh.take(i));
            let keep = match parse_rfc3339(rec.checked_at.as_str()) {
                Some(t) => t.0 > cutoff.0 || (t.0 == cutoff.0 && t.1 > cutoff.1),
                None => true,
            };
            if keep {
                history.push(rec);
            }
        }
        assert(oh.take(oh.len() as int) =~= oh);
        self.history = history;
    }

    /// Drops the history records older than `days` days (at most 365) before
    /// the current time; records whose time does not parse are kept.
    pub fn prune_history(&mut self, days: u32)
        ensures
            exists|now: Instant|
                final(self).history@ == pruned(old(self).history@, #[trigger] cutoff_before(now, days)),
            final(self).services@ == old(self).services@,
            final(self).latest_results@ == old(self).latest_results@,
            final(self).settings == old(self).settings,
    {
        let now = current_time();
        let cutoff = history_cutoff(now.secs, now.nanos, days);
        self.prune_history_before(cutoff);
        assert(cutoff == cutoff_before((now.secs, now.nanos), days));
    }

    /// Replaces the settings and prunes the history to the new retention.
    pub fn update_settings(&mut self, settings: AppSettings)
        ensures
            final(self).settings == settings,
            exists|now: Instant|
                final(self).history@ == pruned(
                    old(self).history@,
                    #[trigger] cutoff_before(now, settings.history_days),
                ),
            final(self).services@ == old(self).services@,
            final(self).latest_results@ == old(self).latest_results@,
    {
        self.settings = settings;
        self.prune_history(settings.history_days);
    }

    /// The configured service with the given id (the first one, if several).
    pub fn service_by_id(&self, service_id: &str) -> (r: Option<ServiceConfig>)
        ensures
            match r {
                Some(svc) => exists|i: int| is_first_with_id(self.services@, service_id@, i) && svc@ == self.services@[i]@,
                None => forall|i: int| 0 <= i < self.services@.len() ==> #[trigger] self.services@[i].id@ != service_id@,
            },
    {
        let id = chars_of(service_id);
        let mut i: usize = 0;
        while i < self.services.len()
            invariant
                i <= self.services@.len(),
                id@ == service_id@,
                forall|k: int| 0 <= k < i ==> #[trigger] self.services@[k].id@ != service_id@,
            decreases self.services@.len() - i,
        {
            let sid = chars_of(self.services[i].id.as_str());
            if chars_equal(sid.as_slice(), id.as_slice()) {
                assert(is_first_with_id(self.services@, service_id@, i as int));
                return Some(self.services[i].clone());
            }
            i = i + 1;
        }
        None
    }

    /// Forgets the whole history.
    pub fn clear_history(&mut self)
        ensures
            final(self).history@.len() == 0,
            final(self).services@ == old(self).services@,
            final(self).latest_results@ == old(self).latest_results@,
            final(self).settings == old(self).settings,
    {
        self.history = Vec::new();
    }
}

} // verus!
