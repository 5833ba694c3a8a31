//! Recording a batch of check results: history, latest results, alerts on
//! health transitions and the overall health before and after.
use vstd::prelude::*;
use crate::monitor::config::ServiceConfig;
use crate::monitor::store::{
    all_healthy_in, current_time, cutoff_before, history_cutoff, healthy_count, pruned, AppState,
    CheckRecord, CheckResult, Instant,
};
use crate::text::push_str;

verus! {

/// The most history records kept; older ones are dropped first.
pub const MAX_HISTORY: usize = 5000;

/// The history record of a check result.
pub open spec fn record_of(r: CheckResult) -> CheckRecord {
    CheckRecord {
        service_id: r.service_id,
        healthy: r.healthy,
        response_time_ms: r.response_time_ms,
        status: r.status,
        checked_at: r.checked_at,
    }
}

/// The history records of a batch of results, in order.
pub open spec fn records_of(rs: Seq<CheckResult>) -> Seq<CheckRecord>
    decreases rs.len(),
{
    if rs.len() == 0 {
        Seq::empty()
    } else {
        records_of(rs.drop_last()).push(record_of(rs.last()))
    }
}

/// The latest results after recording a batch in order: each result replaces
/// the one before it for the same service.
pub open spec fn latest_after(latest: Map<Seq<char>, CheckResult>, rs: Seq<CheckResult>) -> Map<
    Seq<char>,
    CheckResult,
>
    decreases rs.len(),
{
    if rs.len() == 0 {
        latest
    } else {
        latest_after(latest, rs.drop_last()).insert(rs.last().service_id@, rs.last())
    }
}

/// Whether the service was healthy by its latest result; a service without
/// results counts as healthy.
pub open spec fn was_healthy(latest: Map<Seq<char>, CheckResult>, id: Seq<char>) -> bool {
    if latest.contains_key(id) {
        latest[id].healthy
    } else {
        true
    }
}

/// A notice that a service went down or recovered.
pub struct Alert {
    pub name: String,
    pub error: String,
    pub service_id: String,
    pub checked_at: String,
    pub is_down: bool,
}

/// The value of an [`Alert`].
pub struct AlertView {
    pub name: Seq<char>,
    pub error: Seq<char>,
    pub service_id: Seq<char>,
    pub checked_at: Seq<char>,
    pub is_down: bool,
}

impl View for Alert {
    type V = AlertView;

    open spec fn view(&self) -> AlertView {
        AlertView {
            name: self.name@,
            error: self.error@,
            service_id: self.service_id@,
            checked_at: self.checked_at@,
            is_down: self.is_down,
        }
    }
}

impl Alert {
    /// The event type of the alert: `down` or `recovered`.
    pub fn kind(&self) -> (k: &'static str)
        ensures
            k@ == if self.is_down {
                "down"@
            } else {
                "recovered"@
            },
    {
        if self.is_down {
            "down"
        } else {
            "recovered"
        }
    }

    /// The title of the system notification: the service name, then
    /// ` 已宕机` (went down) or ` 已恢复` (recovered).
    pub fn title(&self) -> (t: String)
        ensures
            t@ == self.name@ + if self.is_down {
                " 已宕机"@
            } else {
                " 已恢复"@
            },
    {
        let mut t = copy_text(&self.name);
        if self.is_down {
            push_str(&mut t, " 已宕机");
        } else {
            push_str(&mut t, " 已恢复");
        }
        t
    }

    /// The error reported with the alert event: none when the text is empty.
    pub fn reported_error(&self) -> (e: Option<String>)
        ensures
            match e {
                Some(t) => self.error@.len() > 0 && t@ == self.error@,
                None => self.error@.len() == 0,
            },
    {
        if self.error.as_str().is_empty() {
            None
        } else {
            Some(copy_text(&self.error))
        }
    }
}

/// The alert a result raises: a down alert carries the result's error (empty
/// when it has none), a recovery alert no error.
pub open spec fn alert_for(r: CheckResult, is_down: bool) -> AlertView {
    AlertView {
        name: r.name@,
        error: if is_down {
            match r.error {
                Some(e) => e@,
                None => Seq::empty(),
            }
        } else {
            Seq::empty()
        },
        service_id: r.service_id@,
        checked_at: r.checked_at@,
        is_down,
    }
}

/// The alerts a batch raises when notifications are on: one when a service
/// that was healthy gets an unhealthy result, one when a service that was
/// unhealthy gets a healthy result; none when notifications are off.
pub open spec fn alerts_for(latest: Map<Seq<char>, CheckResult>, rs: Seq<CheckResult>, enabled: bool) -> Seq<
    AlertView,
>
    decreases rs.len(),
{
    if rs.len() == 0 {
        Seq::empty()
    } else {
        let r = rs.last();
        let was = was_healthy(latest_after(latest, rs.drop_last()), r.service_id@);
        let earlier = alerts_for(latest, rs.drop_last(), enabled);
        if enabled && was && !r.healthy {
            earlier.push(alert_for(r, true))
        } else if enabled && !was && r.healthy {
            earlier.push(alert_for(r, false))
        } else {
            earlier
        }
    }
}

/// The last `n` elements (all of them when there are fewer).
pub open spec fn newest<A>(h: Seq<A>, n: nat) -> Seq<A> {
    if h.len() > n {
        h.skip(h.len() - n)
    } else {
        h
    }
}

/// The history after recording a batch: the records appended, then pruned at
/// the cutoff, then the newest 5000 kept.
pub open spec fn history_after(h: Seq<CheckRecord>, rs: Seq<CheckResult>, cutoff: Instant) -> Seq<CheckRecord> {
    newest(pruned(h + records_of(rs), cutoff), 5000)
}

/// What the caller of a batch needs to notify the user and refresh the view.
pub struct ProcessOutcome {
    pub alerts: Vec<Alert>,
    pub was_all_healthy: bool,
    pub all_healthy: bool,
    pub healthy_count: usize,
    pub total_count: usize,
    pub prev_healthy_count: usize,
    pub prev_total_count: usize,
}

impl ProcessOutcome {
    /// Whether the overall health or the healthy count changed.
    pub fn health_changed(&self) -> (r: bool)
        ensures
            r == (self.was_all_healthy != self.all_healthy || self.healthy_count
                != self.prev_healthy_count || self.total_count != self.prev_total_count),
    {
        self.was_all_healthy != self.all_healthy || self.healthy_count != self.prev_healthy_count
            || self.total_count != self.prev_total_count
    }
}

fn copy_text(s: &String) -> (r: String)
    ensures
        r == *s,
{
    s.clone()
}

impl AppState {
    fn keep_newest_history(&mut self)
        ensures
            final(self).history@ == newest(old(self).history@, 5000),
            final(self).services@ == old(self).services@,
            final(self).latest_results@ == old(self).latest_results@,
            final(self).settings == old(self).settings,
    {
        let len = self.history.len();
        if len <= MAX_HISTORY {
            return;
        }
        let excess: usize = len - MAX_HISTORY;
        let mut old_history: Vec<CheckRecord> = Vec::new();
        std::mem::swap(&mut self.history, &mut old_history);
        let ghost oh = old_history@;
        let mut kept: Vec<CheckRecord> = Vec::new();
        let mut seen: usize = 0;
        for rec in it: old_history.into_iter()
            invariant
                it.seq() == oh,
                oh.len() == len,
                excess == len - 5000,
                len > 5000,
                seen == it.index(),
                seen <= excess ==> kept@.len() == 0,
                seen > excess ==> kept@ == oh.subrange(excess as int, seen as int),
        {
            if seen >= excess {
                kept.push(rec);
            }
            seen = seen + 1;
            assert(seen > excess ==> kept@ =~= oh.subrange(excess as int, seen as int));
        }
        assert(kept@ =~= oh.skip(excess as int));
        self.history = kept;
    }

    /// Records a batch of check results: appends them to the history, makes
    /// each the latest result of its service, raises alerts on health
    /// transitions (when notifications are on), prunes the history at the
    /// cutoff and keeps its newest 5000 records. Reports the overall health
    /// before and after.
    pub fn record_results(&mut self, results: &[CheckResult], cutoff: Instant) -> (o: ProcessOutcome)
        ensures
            final(self).services@ == old(self).services@,
            final(self).settings == old(self).settings,
            final(self).latest_results@ == latest_after(old(self).latest_results@, results@),
            final(self).history@ == history_after(old(self).history@, results@, cutoff),
            o.alerts@.map_values(|a: Alert| a@) == alerts_for(
                old(self).latest_results@,
                results@,
                old(self).settings.notifications_enabled,
            ),
            o.was_all_healthy == all_healthy_in(old(self).services@, old(self).latest_results@),
            o.prev_healthy_count == healthy_count(old(self).services@, old(self).latest_results@),
            o.prev_total_count == old(self).services@.len(),
            o.all_healthy == all_healthy_in(final(self).services@, final(self).latest_results@),
            o.healthy_count == healthy_count(final(self).services@, final(self).latest_results@),
            o.total_count == final(self).services@.len(),
    {
        let enabled = self.settings.notifications_enabled;
        let was_all_healthy = self.all_healthy();
        let (prev_healthy_count, prev_total_count) = self.health_summary();
        let mut alerts: Vec<Alert> = Vec::new();
        let mut i: usize = 0;
        while i < results.len()
            invariant
                i <= results@.len(),
                enabled == old(self).settings.notifications_enabled,
                self.services@ == old(self).services@,
                self.settings == old(self).settings,
                self.latest_results@ == latest_after(old(self).latest_results@, results@.take(i as int)),
                self.history@ == old(self).history@ + records_of(results@.take(i as int)),
                alerts@.map_values(|a: Alert| a@) == alerts_for(
                    old(self).latest_results@,
                    results@.take(i as int),
                    enabled,
                ),
            decreases results@.len() - i,
        {
            let ghost pre = results@.take(i as int);
            let ghost next = results@.take(i + 1);
            assert(next.drop_last() =~= pre);
            assert(next.last() == results@[i as int]);
            let result = &results[i];
            let was_healthy = match self.latest_results.get(result.service_id.as_str()) {
                Some(r) => r.healthy,
                None => true,
            };
            self.history.push(
                CheckRecord {
                    service_id: copy_text(&result.service_id),
                    healthy: result.healthy,
                    response_time_ms: result.response_time_ms,
                    status: result.status,
                    checked_at: copy_text(&result.checked_at),
                },
            );
            assert(self.history@ =~= old(self).history@ + records_of(next));
            self.latest_results.insert(copy_text(&result.service_id), result.clone());
            let ghost old_alerts = alerts@.map_values(|a: Alert| a@);
            if enabled && was_healthy && !result.healthy {
                let error = match &result.error {
                    Some(e) => copy_text(e),
                    None => String::new(),
                };
                alerts.push(
                    Alert {
                        name: copy_text(&result.name),
                        error,
                        service_id: copy_text(&result.service_id),
                        checked_at: copy_text(&result.checked_at),
                        is_down: true,
                    },
                );
                assert(alerts@.map_values(|a: Alert| a@) =~= old_alerts.push(alert_for(*result, true)));
            } else if enabled && !was_healthy && result.healthy {
                alerts.push(
                    Alert {
                        name: copy_text(&result.name),
                        error: String::new(),
                        service_id: copy_text(&result.service_id),
                        checked_at: copy_text(&result.checked_at),
                        is_down: false,
                    },
                );
                assert(alerts@.map_values(|a: Alert| a@) =~= old_alerts.push(alert_for(*result, false)));
            }
            i = i + 1;
        }
        assert(results@.take(results@.len() as int) =~= results@);
        self.prune_history_before(cutoff);
        self.keep_newest_history();
        let all_healthy = self.all_healthy();
        let (healthy_count, total_count) = self.health_summary();
        ProcessOutcome {
            alerts,
            was_all_healthy,
            all_healthy,
            healthy_count,
            total_count,
            prev_healthy_count,
            prev_total_count,
        }
    }

    /// Records a batch of check results as `record_results` does, pruning the
    /// history to the configured number of days before the current time.
    pub fn process_results(&mut self, results: &[CheckResult]) -> (o: ProcessOutcome)
        ensures
            final(self).services@ == old(self).services@,
            final(self).settings == old(self).settings,
            final(self).latest_results@ == latest_after(old(self).latest_results@, results@),
            exists|now: Instant|
                final(self).history@ == history_after(
                    old(self).history@,
                    results@,
                    #[trigger] cutoff_before(now, old(self).settings.history_days),
                ),
            o.alerts@.map_values(|a: Alert| a@) == alerts_for(
                old(self).latest_results@,
                results@,
                old(self).settings.notifications_enabled,
            ),
            o.was_all_healthy == all_healthy_in(old(self).services@, old(self).latest_results@),
            o.prev_healthy_count == healthy_count(old(self).services@, old(self).latest_results@),
            o.prev_total_count == old(self).services@.len(),
            o.all_healthy == all_healthy_in(final(self).services@, final(self).latest_results@),
            o.healthy_count == healthy_count(final(self).services@, final(self).latest_results@),
            o.total_count == final(self).services@.len(),
    {
        let now = current_time();
        let cutoff = history_cutoff(now.secs, now.nanos, self.settings.history_days);
        let o = self.record_results(results, cutoff);
        assert(cutoff == cutoff_before((now.secs, now.nanos), old(self).settings.history_days));
        o
    }
}


/// After a batch is recorded, the latest result of each service in the batch
/// is the last result for that service in the batch.
pub proof fn lemma_latest_is_last_result(latest: Map<Seq<char>, CheckResult>, rs: Seq<CheckResult>, i: int)
    requires
        0 <= i < rs.len(),
        forall|j: int| i < j < rs.len() ==> #[trigger] rs[j].service_id@ != rs[i].service_id@,
    ensures
        latest_after(latest, rs).contains_key(rs[i].service_id@),
        latest_after(latest, rs)[rs[i].service_id@] == rs[i],
    decreases rs.len(),
{
    if i < rs.len() - 1 {
        let front = rs.drop_last();
        assert forall|j: int| i < j < front.len() implies #[trigger] front[j].service_id@ != front[i].service_id@ by {
            assert(front[j] == rs[j]);
        }
        lemma_latest_is_last_result(latest, front, i);
        assert(rs.last() == rs[rs.len() - 1]);
    }
}

/// Services without a result in the batch keep their latest result.
pub proof fn lemma_latest_untouched(latest: Map<Seq<char>, CheckResult>, rs: Seq<CheckResult>, id: Seq<char>)
    requires
        forall|j: int| 0 <= j < rs.len() ==> #[trigger] rs[j].service_id@ != id,
    ensures
        latest_after(latest, rs).contains_key(id) == latest.contains_key(id),
        latest.contains_key(id) ==> latest_after(latest, rs)[id] == latest[id],
    decreases rs.len(),
{
    if rs.len() > 0 {
        let front = rs.drop_last();
        assert forall|j: int| 0 <= j < front.len() implies #[trigger] front[j].service_id@ != id by {
            assert(front[j] == rs[j]);
        }
        lemma_latest_untouched(latest, front, id);
        assert(rs.last() == rs[rs.len() - 1]);
    }
}

/// With notifications off, a batch raises no alerts; with them on, it raises
/// at most one alert per result.
pub proof fn lemma_alert_count(latest: Map<Seq<char>, CheckResult>, rs: Seq<CheckResult>, enabled: bool)
    ensures
        !enabled ==> alerts_for(latest, rs, enabled).len() == 0,
        alerts_for(latest, rs, enabled).len() <= rs.len(),
    decreases rs.len(),
{
    if rs.len() > 0 {
        lemma_alert_count(latest, rs.drop_last(), enabled);
    }
}

/// A down alert is raised only for an unhealthy result and a recovery alert
/// only for a healthy one.
pub proof fn lemma_alerts_match_results(latest: Map<Seq<char>, CheckResult>, rs: Seq<CheckResult>, enabled: bool, k: int)
    requires
        0 <= k < alerts_for(latest, rs, enabled).len(),
    ensures
        exists|i: int|
            0 <= i < rs.len() && #[trigger] rs[i].service_id@ == alerts_for(latest, rs, enabled)[k].service_id
                && rs[i].healthy == !alerts_for(latest, rs, enabled)[k].is_down,
    decreases rs.len(),
{
    let front = rs.drop_last();
    if k < alerts_for(latest, front, enabled).len() {
        lemma_alerts_match_results(latest, front, enabled, k);
        let i = choose|i: int|
            0 <= i < front.len() && #[trigger] front[i].service_id@ == alerts_for(latest, front, enabled)[k].service_id
                && front[i].healthy == !alerts_for(latest, front, enabled)[k].is_down;
        assert(rs[i] == front[i]);
    } else {
        assert(rs[rs.len() - 1] == rs.last());
    }
}

/// The alerts of a single result, spelled out: with notifications on, a
/// service that was healthy (or had no result yet) and now fails raises one
/// down alert carrying the result's name, id, time and error (empty when it
/// has none); a service that was unhealthy and now passes raises one recovery
/// alert with no error; a result that keeps the health raises none. With
/// notifications off nothing is raised.
pub proof fn lemma_single_result_alerts(latest: Map<Seq<char>, CheckResult>, r: CheckResult)
    ensures
        ({
            let a = alerts_for(latest, seq![r], true);
            let before = !latest.contains_key(r.service_id@) || latest[r.service_id@].healthy;
            &&& (before && !r.healthy) ==> {
                &&& a.len() == 1
                &&& a[0].is_down
                &&& a[0].service_id == r.service_id@
                &&& a[0].name == r.name@
                &&& a[0].checked_at == r.checked_at@
                &&& a[0].error == match r.error {
                    Some(e) => e@,
                    None => Seq::<char>::empty(),
                }
            }
            &&& (!before && r.healthy) ==> {
                &&& a.len() == 1
                &&& !a[0].is_down
                &&& a[0].service_id == r.service_id@
                &&& a[0].name == r.name@
                &&& a[0].checked_at == r.checked_at@
                &&& a[0].error.len() == 0
            }
            &&& (before == r.healthy) ==> a.len() == 0
        }),
        alerts_for(latest, seq![r], false).len() == 0,
{
    let rs = seq![r];
    assert(rs.drop_last() =~= Seq::<CheckResult>::empty());
    assert(rs.last() == r);
    assert(latest_after(latest, rs.drop_last()) == latest);
    assert(alerts_for(latest, rs.drop_last(), true) =~= Seq::<AlertView>::empty());
    assert(alerts_for(latest, rs.drop_last(), false) =~= Seq::<AlertView>::empty());
}

/// The history never holds more than 5000 records after a batch is recorded.
pub proof fn lemma_history_bounded(h: Seq<CheckRecord>, rs: Seq<CheckResult>, cutoff: Instant)
    ensures
        history_after(h, rs, cutoff).len() <= 5000,
{
}

} // verus!
