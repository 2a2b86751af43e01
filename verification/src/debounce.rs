//! The debounce ledger: one last-accepted time per device identity.
//!
//! A burst of duplicate OS notifications for one physical device must
//! collapse into a single semantic transition. The ledger maps each identity
//! key to the time (milliseconds) of its last accepted transition; a
//! notification is accepted when no record exists or the window has fully
//! elapsed, and only an accepted notification moves the record — suppression
//! never resets the window, so a rapid burst cannot postpone acceptance
//! indefinitely.

use vstd::pervasive::VecAdditionalExecFns;
use vstd::prelude::*;

use crate::filter::DeviceInfo;

verus! {

/// The ledger model carried by a backing vector of `(key, time)` entries:
/// later entries override earlier ones (well-formed ledgers never hold a key
/// twice, so nothing is in fact overridden).
pub open spec fn entries_map(s: Seq<(u64, u64)>) -> Map<u64, u64>
    decreases s.len(),
{
    if s.len() == 0 {
        Map::empty()
    } else {
        entries_map(s.drop_last()).insert(s.last().0, s.last().1)
    }
}

/// No identity key occurs twice in the backing vector.
pub open spec fn unique_keys(s: Seq<(u64, u64)>) -> bool {
    forall|i: int, j: int| 0 <= i < j < s.len() ==> s[i].0 != s[j].0
}

proof fn lemma_entries_map_at(s: Seq<(u64, u64)>, i: int)
    requires
        unique_keys(s),
        0 <= i < s.len(),
    ensures
        entries_map(s).contains_key(s[i].0),
        entries_map(s)[s[i].0] == s[i].1,
    decreases s.len(),
{
    if i < s.len() - 1 {
        lemma_entries_map_at(s.drop_last(), i);
    }
}

proof fn lemma_entries_map_absent(s: Seq<(u64, u64)>, k: u64)
    requires
        forall|i: int| 0 <= i < s.len() ==> s[i].0 != k,
    ensures
        !entries_map(s).contains_key(k),
    decreases s.len(),
{
    if s.len() > 0 {
        lemma_entries_map_absent(s.drop_last(), k);
    }
}

proof fn lemma_entries_map_update(s: Seq<(u64, u64)>, i: int, v: u64)
    requires
        unique_keys(s),
        0 <= i < s.len(),
    ensures
        entries_map(s.update(i, (s[i].0, v))) == entries_map(s).insert(s[i].0, v),
    decreases s.len(),
{
    let k = s[i].0;
    let s2 = s.update(i, (k, v));
    if i == s.len() - 1 {
        assert(s2.drop_last() =~= s.drop_last());
        assert(s2.last() == (k, v));
        assert(entries_map(s.drop_last()).insert(k, v) =~= entries_map(s).insert(k, v));
    } else {
        lemma_entries_map_update(s.drop_last(), i, v);
        assert(s2.drop_last() =~= s.drop_last().update(i, (k, v)));
        assert(s2.last() == s.last());
        assert(s.last().0 != k);
        assert(entries_map(s.drop_last()).insert(k, v).insert(s.last().0, s.last().1) =~= entries_map(
            s.drop_last(),
        ).insert(s.last().0, s.last().1).insert(k, v));
    }
}

/// Maps each device identity key to the time of its last accepted
/// transition. Owned by one hotplug monitor; lives for the monitor's
/// lifetime, bounded by the small number of distinct identities ever seen.
pub struct DebounceLedger {
    entries: Vec<(u64, u64)>,
}

impl View for DebounceLedger {
    type V = Map<u64, u64>;

    closed spec fn view(&self) -> Map<u64, u64> {
        entries_map(self.entries@)
    }
}

impl DebounceLedger {
    /// Well-formed: the backing vector holds each key at most once.
    pub closed spec fn wf(&self) -> bool {
        unique_keys(self.entries@)
    }

    /// A fresh ledger with no recorded transitions.
    pub fn new() -> (r: DebounceLedger)
        ensures
            r.wf(),
            r@ == Map::<u64, u64>::empty(),
    {
        DebounceLedger { entries: Vec::new() }
    }

    /// Time of the last accepted transition for `key`, if one was recorded.
    pub fn last_accepted(&self, key: u64) -> (r: Option<u64>)
        requires
            self.wf(),
        ensures
            r is Some <==> self@.contains_key(key),
            r is Some ==> r.unwrap() == self@[key],
    {
        let n = self.entries.len();
        let mut i: usize = 0;
        while i < n
            invariant
                self.wf(),
                n == self.entries.len(),
                0 <= i <= n,
                forall|j: int| 0 <= j < i ==> self.entries@[j].0 != key,
            decreases n - i,
        {
            if self.entries[i].0 == key {
                proof {
                    lemma_entries_map_at(self.entries@, i as int);
                }
                return Some(self.entries[i].1);
            }
            i += 1;
        }
        proof {
            lemma_entries_map_absent(self.entries@, key);
        }
        None
    }

    /// Record `now` as the last accepted time for `key`, inserting or
    /// updating its entry.
    pub fn record(&mut self, key: u64, now: u64)
        requires
            old(self).wf(),
        ensures
            final(self).wf(),
            final(self)@ == old(self)@.insert(key, now),
    {
        let n = self.entries.len();
        let mut i: usize = 0;
        while i < n
            invariant
                self.wf(),
                self.entries@ == old(self).entries@,
                n == self.entries.len(),
                0 <= i <= n,
                forall|j: int| 0 <= j < i ==> self.entries@[j].0 != key,
            decreases n - i,
        {
            if self.entries[i].0 == key {
                proof {
                    lemma_entries_map_update(self.entries@, i as int, now);
                }
                self.entries.set(i, (key, now));
                assert(forall|p: int, q: int|
                    0 <= p < q < self.entries@.len() ==> self.entries@[p].0 == old(
                        self,
                    ).entries@[p].0 && self.entries@[q].0 == old(self).entries@[q].0);
                return ;
            }
            i += 1;
        }
        self.entries.push((key, now));
        proof {
            assert(self.entries@.drop_last() =~= old(self).entries@);
            assert(self.entries@.last() == (key, now));
            assert(forall|p: int, q: int|
                0 <= p < q < self.entries@.len() - 1 ==> self.entries@[p].0 != self.entries@[q].0);
            assert(forall|p: int|
                0 <= p < self.entries@.len() - 1 ==> self.entries@[p].0 != key);
        }
    }
}

/// Time elapsed from `prev` to `now`, saturating at zero when the clock
/// reads earlier than the stored record.
pub open spec fn elapsed_since(prev: u64, now: u64) -> u64 {
    if now >= prev {
        (now - prev) as u64
    } else {
        0
    }
}

/// The debounce policy over the ledger model: accept when no record exists
/// for the key, or when at least `window` has elapsed since its record.
pub open spec fn fire_decision(m: Map<u64, u64>, key: u64, now: u64, window: u64) -> bool {
    !m.contains_key(key) || elapsed_since(m[key], now) >= window
}

/// The ledger model after one notification: it records `now` exactly when
/// the notification is accepted.
pub open spec fn ledger_after(m: Map<u64, u64>, key: u64, now: u64, window: u64) -> Map<u64, u64> {
    if fire_decision(m, key, now, window) {
        m.insert(key, now)
    } else {
        m
    }
}

/// The ledger model after a sequence of notifications for one key, in order.
pub open spec fn ledger_after_burst(m: Map<u64, u64>, key: u64, times: Seq<u64>, window: u64) -> Map<
    u64,
    u64,
>
    decreases times.len(),
{
    if times.len() == 0 {
        m
    } else {
        ledger_after(
            ledger_after_burst(m, key, times.drop_last(), window),
            key,
            times.last(),
            window,
        )
    }
}

/// How many of a sequence of notifications for one key are accepted.
pub open spec fn accepted_count(m: Map<u64, u64>, key: u64, times: Seq<u64>, window: u64) -> nat
    decreases times.len(),
{
    if times.len() == 0 {
        0
    } else {
        accepted_count(m, key, times.drop_last(), window) + (if fire_decision(
            ledger_after_burst(m, key, times.drop_last(), window),
            key,
            times.last(),
            window,
        ) {
            1nat
        } else {
            0nat
        })
    }
}

/// Accept `now` for `key` against the ledger, recording `now` only when
/// accepted; a suppressed notification leaves the ledger — in particular the
/// stored last-accepted time — untouched.
pub fn should_fire(last: &mut DebounceLedger, info: &DeviceInfo, now_ms: u64, window_ms: u64) -> (fired:
    bool)
    requires
        old(last).wf(),
    ensures
        final(last).wf(),
        fired == fire_decision(old(last)@, info.key(), now_ms, window_ms),
        fired ==> final(last)@ == old(last)@.insert(info.key(), now_ms),
        !fired ==> final(last)@ == old(last)@,
{
    let key = info.key_of();
    match last.last_accepted(key) {
        Some(prev) => {
            let elapsed: u64 = if now_ms >= prev {
                now_ms - prev
            } else {
                0
            };
            if elapsed < window_ms {
                false
            } else {
                last.record(key, now_ms);
                true
            }
        },
        None => {
            last.record(key, now_ms);
            true
        },
    }
}

/// Law (debounce idempotence): a burst for one key whose first notification
/// at time `t` is accepted, followed by any notifications inside the window
/// `t..t+w`, yields exactly one acceptance and leaves the ledger recording
/// `t`; a further notification at least `w` after `t` is accepted again.
pub proof fn lemma_debounce_idempotent(
    m: Map<u64, u64>,
    key: u64,
    t: u64,
    times: Seq<u64>,
    window: u64,
    s: u64,
)
    requires
        fire_decision(m, key, t, window),
        forall|i: int| 0 <= i < times.len() ==> t <= #[trigger] times[i] && times[i] - t < window,
        t <= s,
        s - t >= window,
    ensures
        accepted_count(m, key, seq![t] + times, window) == 1,
        ledger_after_burst(m, key, seq![t] + times, window) == m.insert(key, t),
        fire_decision(ledger_after_burst(m, key, seq![t] + times, window), key, s, window),
    decreases times.len(),
{
    let whole = seq![t] + times;
    if times.len() == 0 {
        assert(whole =~= seq![t]);
        assert(whole.drop_last() =~= Seq::<u64>::empty());
        assert(whole.last() == t);
        assert(ledger_after_burst(m, key, Seq::<u64>::empty(), window) == m);
        assert(accepted_count(m, key, Seq::<u64>::empty(), window) == 0);
        assert(ledger_after_burst(m, key, whole, window) == ledger_after(m, key, t, window));
        assert(accepted_count(m, key, whole, window) == 1);
    } else {
        lemma_debounce_idempotent(m, key, t, times.drop_last(), window, s);
        let prefix = seq![t] + times.drop_last();
        assert(whole.drop_last() =~= prefix);
        assert(whole.last() == times.last());
        let m1 = m.insert(key, t);
        assert(ledger_after_burst(m, key, prefix, window) == m1);
        assert(accepted_count(m, key, prefix, window) == 1);
        assert(t <= times.last() && times.last() - t < window);
        assert(!fire_decision(m1, key, times.last(), window));
        assert(ledger_after_burst(m, key, whole, window) == ledger_after(
            m1,
            key,
            times.last(),
            window,
        ));
        assert(accepted_count(m, key, whole, window) == accepted_count(m, key, prefix, window));
    }
}

/// Law (non-reset): a suppressed notification changes nothing — the ledger
/// afterwards is the ledger before, so the stored last-accepted time for the
/// key is exactly what it was.
pub proof fn lemma_suppressed_non_reset(m: Map<u64, u64>, key: u64, now: u64, window: u64)
    requires
        m.contains_key(key),
        !fire_decision(m, key, now, window),
    ensures
        ledger_after(m, key, now, window) == m,
        ledger_after(m, key, now, window)[key] == m[key],
{
}

} // verus!
