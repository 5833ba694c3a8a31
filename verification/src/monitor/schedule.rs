//! When each service is due for its next automatic check.
use vstd::prelude::*;
use crate::keyed::StringMap;
use crate::monitor::config::ServiceConfig;
use crate::text::{chars_equal, chars_of};

verus! {

/// The shortest interval between automatic checks of a service, in seconds.
pub const MIN_INTERVAL_SECS: u64 = 5;

/// The interval between automatic checks of a service: its own, but at least
/// five seconds.
pub open spec fn check_interval_secs(svc: ServiceConfig) -> u64 {
    if svc.interval_secs > 5 {
        svc.interval_secs
    } else {
        5
    }
}

/// A service is due when it was never checked, or when at least its interval
/// has passed since its last check (times in nanoseconds; a clock that seems
/// to go back counts as no time passed).
pub open spec fn is_due(last: Map<Seq<char>, u64>, svc: ServiceConfig, now_ns: u64) -> bool {
    !last.contains_key(svc.id@) || {
        let elapsed: int = if now_ns >= last[svc.id@] {
            now_ns - last[svc.id@]
        } else {
            0
        };
        elapsed / 1_000_000_000 >= check_interval_secs(svc)
    }
}

/// The services that are due, in order.
pub open spec fn due_in(last: Map<Seq<char>, u64>, s: Seq<ServiceConfig>, now_ns: u64) -> Seq<ServiceConfig>
    decreases s.len(),
{
    if s.len() == 0 {
        s
    } else if is_due(last, s.last(), now_ns) {
        due_in(last, s.drop_last(), now_ns).push(s.last())
    } else {
        due_in(last, s.drop_last(), now_ns)
    }
}

/// Some service in the list has this id.
pub open spec fn has_service_id(s: Seq<ServiceConfig>, id: Seq<char>) -> bool {
    exists|i: int| 0 <= i < s.len() && #[trigger] s[i].id@ == id
}

/// The times of the last automatic checks, by service id.
pub struct MonitorSchedule {
    pub last_check_times: StringMap<u64>,
}

proof fn lemma_due_in_ids(last: Map<Seq<char>, u64>, s: Seq<ServiceConfig>, now_ns: u64, k: int)
    requires
        0 <= k < due_in(last, s, now_ns).len(),
    ensures
        has_service_id(s, due_in(last, s, now_ns)[k].id@),
        is_due(last, due_in(last, s, now_ns)[k], now_ns),
    decreases s.len(),
{
    if s.len() > 0 {
        let rest = due_in(last, s.drop_last(), now_ns);
        if k < rest.len() {
            lemma_due_in_ids(last, s.drop_last(), now_ns, k);
            let i = choose|i: int| 0 <= i < s.drop_last().len() && #[trigger] s.drop_last()[i].id@ == rest[k].id@;
            assert(s[i].id@ == rest[k].id@);
        } else {
            assert(s[s.len() - 1].id@ == s.last().id@);
        }
    }
}

impl MonitorSchedule {
    /// A schedule with no checks yet.
    pub fn new() -> (s: Self)
        ensures
            s.last_check_times@ == Map::<Seq<char>, u64>::empty(),
    {
        MonitorSchedule { last_check_times: StringMap::new() }
    }

    fn forget_removed(&mut self, services: &[ServiceConfig])
        ensures
            forall|k: Seq<char>|
                #[trigger] final(self).last_check_times@.contains_key(k) <==> old(self).last_check_times@.contains_key(k) && has_service_id(services@, k),
            forall|k: Seq<char>|
                #[trigger] final(self).last_check_times@.contains_key(k)
                    ==> final(self).last_check_times@[k] == old(self).last_check_times@[k],
    {
        let keys = self.last_check_times.keys();
        let mut i: usize = 0;
        while i < keys.len()
            invariant
                i <= keys@.len(),
                forall|k: Seq<char>|
                    old(self).last_check_times@.contains_key(k) <==> exists|j: int|
                        0 <= j < keys@.len() && #[trigger] keys@[j]@ == k,
                forall|k: Seq<char>|
                    #[trigger] self.last_check_times@.contains_key(k) <==> old(self).last_check_times@.contains_key(k) && (has_service_id(services@, k) || !exists|j: int|
                        0 <= j < i && #[trigger] keys@[j]@ == k),
                forall|k: Seq<char>|
                    #[trigger] self.last_check_times@.contains_key(k)
                        ==> self.last_check_times@[k] == old(self).last_check_times@[k],
            decreases keys@.len() - i,
        {
            let key = &keys[i];
            let kc = chars_of(key.as_str());
            let mut found = false;
            let mut j: usize = 0;
            while j < services.len()
                invariant
                    j <= services@.len(),
                    kc@ == keys@[i as int]@,
                    found == exists|m: int| 0 <= m < j && #[trigger] services@[m].id@ == kc@,
                decreases services@.len() - j,
            {
                let sc = chars_of(services[j].id.as_str());
                if chars_equal(sc.as_slice(), kc.as_slice()) {
                    found = true;
                }
                j = j + 1;
            }
            if !found {
                self.last_check_times.remove(key.as_str());
            }
            i = i + 1;
        }
    }

    /// Picks the services due for a check at `now_ns` and records that they
    /// are checked now; services no longer configured are forgotten. A
    /// service is due when it was never checked or when its interval (at
    /// least five seconds) has passed since its last check.
    pub fn due_services(&mut self, services: &[ServiceConfig], now_ns: u64) -> (r: Vec<ServiceConfig>)
        ensures
            r@.len() == due_in(old(self).last_check_times@, services@, now_ns).len(),
            forall|k: int|
                0 <= k < r@.len() ==> #[trigger] r@[k]@ == due_in(
                    old(self).last_check_times@,
                    services@,
                    now_ns,
                )[k]@,
            forall|k: Seq<char>|
                #[trigger] final(self).last_check_times@.contains_key(k) <==> has_service_id(
                    services@,
                    k,
                ) && (old(self).last_check_times@.contains_key(k) || has_service_id(
                    due_in(old(self).last_check_times@, services@, now_ns),
                    k,
                )),
            forall|k: Seq<char>|
                #[trigger] final(self).last_check_times@.contains_key(k) ==> final(self).last_check_times@[k] == if has_service_id(
                    due_in(old(self).last_check_times@, services@, now_ns),
                    k,
                ) {
                    now_ns
                } else {
                    old(self).last_check_times@[k]
                },
            records_checks(old(self).last_check_times@, final(self).last_check_times@, services@, now_ns),
    {
        let ghost old_last = self.last_check_times@;
        self.forget_removed(services);
        let ghost mid = self.last_check_times@;
        let mut due: Vec<ServiceConfig> = Vec::new();
        let mut i: usize = 0;
        while i < services.len()
            invariant
                i <= services@.len(),
                self.last_check_times@ == mid,
                forall|k: Seq<char>|
                    #[trigger] mid.contains_key(k) <==> old_last.contains_key(k) && has_service_id(services@, k),
                forall|k: Seq<char>| #[trigger] mid.contains_key(k) ==> mid[k] == old_last[k],
                due@.len() == due_in(old_last, services@.take(i as int), now_ns).len(),
                forall|k: int|
                    0 <= k < due@.len() ==> #[trigger] due@[k]@ == due_in(
                        old_last,
                        services@.take(i as int),
                        now_ns,
                    )[k]@,
            decreases services@.len() - i,
        {
            let ghost pre = services@.take(i as int);
            assert(services@.take(i + 1).drop_last() =~= pre);
            let svc = &services[i];
            proof {
                assert(services@[i as int].id@ == svc.id@);
                assert(has_service_id(services@, svc.id@));
            }
            let interval = if svc.interval_secs > MIN_INTERVAL_SECS {
                svc.interval_secs
            } else {
                MIN_INTERVAL_SECS
            };
            let is_due_now = match self.last_check_times.get(svc.id.as_str()) {
                None => true,
                Some(last) => {
                    let elapsed: u64 = if now_ns >= *last {
                        now_ns - *last
                    } else {
                        0
                    };
                    elapsed / 1_000_000_000 >= interval
                },
            };
            if is_due_now {
                due.push(svc.clone());
            }
            i = i + 1;
        }
        assert(services@.take(services@.len() as int) =~= services@);
        let ghost due_spec = due_in(old_last, services@, now_ns);
        let mut j: usize = 0;
        while j < due.len()
            invariant
                j <= due@.len(),
                due@.len() == due_spec.len(),
                forall|k: int| 0 <= k < due@.len() ==> #[trigger] due@[k]@ == due_spec[k]@,
                forall|k: Seq<char>|
                    #[trigger] self.last_check_times@.contains_key(k) <==> mid.contains_key(k)
                        || exists|m: int| 0 <= m < j && #[trigger] due_spec[m].id@ == k,
                forall|k: Seq<char>|
                    #[trigger] self.last_check_times@.contains_key(k) ==> self.last_check_times@[k] == if exists|m: int|
                        0 <= m < j && #[trigger] due_spec[m].id@ == k {
                        now_ns
                    } else {
                        mid[k]
                    },
            decreases due@.len() - j,
        {
            assert(due@[j as int]@.id == due_spec[j as int].id@);
            self.last_check_times.insert(due[j].id.clone(), now_ns);
            j = j + 1;
        }
        proof {
            assert forall|k: Seq<char>|
                #[trigger] self.last_check_times@.contains_key(k) <==> has_service_id(services@, k)
                    && (old_last.contains_key(k) || has_service_id(due_spec, k)) by {
                if has_service_id(due_spec, k) {
                    let m = choose|m: int| 0 <= m < due_spec.len() && #[trigger] due_spec[m].id@ == k;
                    lemma_due_in_ids(old_last, services@, now_ns, m);
                }
                if exists|m: int| 0 <= m < due_spec.len() && #[trigger] due_spec[m].id@ == k {
                    let m = choose|m: int| 0 <= m < due_spec.len() && #[trigger] due_spec[m].id@ == k;
                    lemma_due_in_ids(old_last, services@, now_ns, m);
                }
            }
        }
        due
    }
}


/// What a call of `due_services` at `now` records: the services still
/// configured keep their entries, and each due service is stamped `now`.
pub open spec fn records_checks(
    before: Map<Seq<char>, u64>,
    after: Map<Seq<char>, u64>,
    services: Seq<ServiceConfig>,
    now: u64,
) -> bool {
    &&& forall|k: Seq<char>|
        #[trigger] after.contains_key(k) <==> has_service_id(services, k) && (before.contains_key(k)
            || has_service_id(due_in(before, services, now), k))
    &&& forall|k: Seq<char>|
        #[trigger] after.contains_key(k) ==> after[k] == if has_service_id(due_in(before, services, now), k) {
            now
        } else {
            before[k]
        }
}

/// Two consecutive automatic checks of a service are at least its interval
/// (and at least five seconds) apart: when one call of `due_services` at
/// `then` checks a service, and the next call, at `now` no earlier, checks a
/// service with that id again, at least that service's interval has passed.
pub proof fn lemma_checks_spaced(
    before: Map<Seq<char>, u64>,
    after: Map<Seq<char>, u64>,
    first: Seq<ServiceConfig>,
    then: u64,
    next: Seq<ServiceConfig>,
    now: u64,
    k: int,
)
    requires
        records_checks(before, after, first, then),
        0 <= k < due_in(after, next, now).len(),
        has_service_id(due_in(before, first, then), due_in(after, next, now)[k].id@),
        then <= now,
    ensures
        now - then >= check_interval_secs(due_in(after, next, now)[k]) * 1_000_000_000,
{
    let svc = due_in(after, next, now)[k];
    let id = svc.id@;
    lemma_due_in_ids(after, next, now, k);
    let m = choose|m: int| 0 <= m < due_in(before, first, then).len() && #[trigger] due_in(before, first, then)[m].id@ == id;
    lemma_due_in_ids(before, first, then, m);
    assert(after.contains_key(id));
    assert(after[id] == then);
    let elapsed: int = now - then;
    assert(elapsed / 1_000_000_000 >= check_interval_secs(svc));
    assert(elapsed >= check_interval_secs(svc) * 1_000_000_000) by (nonlinear_arith)
        requires
            elapsed / 1_000_000_000 >= check_interval_secs(svc),
            elapsed >= 0,
    ;
}

/// When a service is due, in terms of its configured interval: a service
/// never checked is due at once; a service last checked at `then` is due at
/// `now` (not before `then`) exactly when at least its configured interval,
/// raised to five seconds when shorter and otherwise unchanged, has passed.
pub proof fn lemma_due_exactly_after_configured_interval(
    last: Map<Seq<char>, u64>,
    svc: ServiceConfig,
    then: u64,
    now: u64,
)
    ensures
        !last.contains_key(svc.id@) ==> is_due(last, svc, now),
        last.contains_key(svc.id@) && last[svc.id@] == then && then <= now ==> (is_due(last, svc, now)
            <==> now - then >= (if svc.interval_secs >= 5 {
            svc.interval_secs as int
        } else {
            5int
        }) * 1_000_000_000),
{
    if last.contains_key(svc.id@) && last[svc.id@] == then && then <= now {
        let elapsed: int = now - then;
        let n: int = if svc.interval_secs >= 5 {
            svc.interval_secs as int
        } else {
            5int
        };
        assert(check_interval_secs(svc) == n);
        assert(elapsed / 1_000_000_000 >= n <==> elapsed >= n * 1_000_000_000) by (nonlinear_arith)
            requires
                elapsed >= 0,
        ;
    }
}

/// A service checked at `then` is not due again before its interval has
/// passed: not at any time `now` less than the interval after `then`.
pub proof fn lemma_not_due_before_interval(last: Map<Seq<char>, u64>, svc: ServiceConfig, then: u64, now: u64)
    requires
        last.contains_key(svc.id@),
        last[svc.id@] == then,
        then <= now,
        (now - then) < check_interval_secs(svc) * 1_000_000_000,
    ensures
        !is_due(last, svc, now),
{
    let elapsed: int = now - then;
    assert(elapsed / 1_000_000_000 < check_interval_secs(svc)) by (nonlinear_arith)
        requires
            elapsed < check_interval_secs(svc) * 1_000_000_000,
            elapsed >= 0,
    ;
}

/// A service checked at `then` is due again once its interval has passed.
pub proof fn lemma_due_after_interval(last: Map<Seq<char>, u64>, svc: ServiceConfig, then: u64, now: u64)
    requires
        last.contains_key(svc.id@),
        last[svc.id@] == then,
        then <= now,
        (now - then) >= check_interval_secs(svc) * 1_000_000_000,
    ensures
        is_due(last, svc, now),
{
    let elapsed: int = now - then;
    assert(elapsed / 1_000_000_000 >= check_interval_secs(svc)) by (nonlinear_arith)
        requires
            elapsed >= check_interval_secs(svc) * 1_000_000_000,
    ;
}

} // verus!
