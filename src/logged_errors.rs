use vstd::prelude::*;

use crate::dedup::Dedup;

verus! {

/// bevy's `HashMap` from error identity to the time, in milliseconds, at
/// which that identity last failed.
#[verifier::external_body]
pub struct LastNotified {
    map: bevy_utils::HashMap<String, u64>,
}

/// What a [`LastNotified`] holds: identity to time.
pub uninterp spec fn last_notified(t: LastNotified) -> Map<Seq<char>, u64>;

/// Relies on `hashbrown::HashMap::default`: a new map holds no entry.
#[verifier::external_body]
fn empty_table() -> (r: LastNotified)
    ensures
        forall|k: Seq<char>| !#[trigger] last_notified(r).contains_key(k),
{
    LastNotified { map: bevy_utils::HashMap::default() }
}

/// Relies on `hashbrown::HashMap::insert`: the key now maps to the new value,
/// no other entry changes, and the value it had before comes back.
#[verifier::external_body]
fn record(t: &mut LastNotified, id: String, at: u64) -> (r: Option<u64>)
    ensures
        last_notified(*final(t)) == last_notified(*old(t)).insert(id@, at),
        r == (if last_notified(*old(t)).contains_key(id@) {
            Some(last_notified(*old(t))[id@])
        } else {
            None
        }),
{
    t.map.insert(id, at)
}

/// Relies on `hashbrown::HashMap::get`: the value under the key, if any.
#[verifier::external_body]
fn lookup(t: &LastNotified, id: &str) -> (r: Option<u64>)
    ensures
        r == (if last_notified(*t).contains_key(id@) {
            Some(last_notified(*t)[id@])
        } else {
            None
        }),
{
    t.map.get(id).copied()
}

/// Relies on `hashbrown::HashMap::len`: the number of entries.
#[verifier::external_body]
fn count(t: &LastNotified) -> (r: usize)
    ensures
        r == last_notified(*t).len(),
{
    t.map.len()
}

/// Whether a failure with identity `id` at time `now` is reported, given the
/// times at which identities last failed: it is, unless the same identity
/// failed less than `cooldown` before.
pub open spec fn notify_due(seen: Map<Seq<char>, u64>, id: Seq<char>, now: u64, cooldown: u64) -> bool {
    !seen.contains_key(id) || now >= seen[id] + cooldown
}

/// Once identity `id` has failed at `t0`, the next failure with that identity,
/// at `t1`, is held back when `t1 < t0 + cooldown` and reported when
/// `t1 >= t0 + cooldown`, whatever else the cache holds.
pub proof fn lemma_cooldown_suppression(
    seen: Map<Seq<char>, u64>,
    id: Seq<char>,
    t0: u64,
    t1: u64,
    cooldown: u64,
)
    ensures
        t1 < t0 + cooldown ==> !notify_due(seen.insert(id, t0), id, t1, cooldown),
        t1 >= t0 + cooldown ==> notify_due(seen.insert(id, t0), id, t1, cooldown),
{
}

/// With a cooldown of zero every failure is reported, whatever the cache
/// holds, as long as the clock does not run backwards (no recorded time for
/// `id` lies after `now`).
pub proof fn lemma_zero_cooldown(seen: Map<Seq<char>, u64>, id: Seq<char>, now: u64)
    requires
        seen.contains_key(id) ==> seen[id] <= now,
    ensures
        notify_due(seen, id, now, 0),
{
}

/// A failure with one identity never changes whether a failure with another
/// identity is reported, even at the same time: recording `a` leaves the
/// answer for `b` as it was.
pub proof fn lemma_identity_partition(
    seen: Map<Seq<char>, u64>,
    a: Seq<char>,
    b: Seq<char>,
    t: u64,
    now: u64,
    cooldown: u64,
)
    requires
        a != b,
    ensures
        notify_due(seen.insert(a, t), b, now, cooldown) == notify_due(seen, b, now, cooldown),
{
}

/// The deduplication cache of one wrapped unit of work: for each error
/// identity, when it last failed. It has no eviction: it grows with the
/// number of distinct identities seen.
pub struct LoggedErrors {
    table: LastNotified,
}

impl View for LoggedErrors {
    type V = Map<Seq<char>, u64>;

    closed spec fn view(&self) -> Map<Seq<char>, u64> {
        last_notified(self.table)
    }
}

impl LoggedErrors {
    /// An empty cache.
    pub fn new() -> (r: Self)
        ensures
            r@ == Map::<Seq<char>, u64>::empty(),
    {
        let r = LoggedErrors { table: empty_table() };
        assert(r@ =~= Map::<Seq<char>, u64>::empty());
        r
    }

    /// Records that identity `id` failed at `now`, whatever the answer, and
    /// says whether that failure is to be reported: it is when `id` never
    /// failed before, or failed at least `cooldown` milliseconds ago.
    pub fn notify_if_due(&mut self, now: u64, id: String, cooldown: u64) -> (r: bool)
        ensures
            final(self)@ == old(self)@.insert(id@, now),
            r == notify_due(old(self)@, id@, now, cooldown),
    {
        match record(&mut self.table, id, now) {
            None => true,
            Some(t) => now >= t && now - t >= cooldown,
        }
    }

    /// [`Self::notify_if_due`] with the identity and cooldown of `error`.
    pub fn should_notify<T: Dedup>(&mut self, now: u64, error: &T) -> (r: bool)
        ensures
            final(self)@ == old(self)@.insert(error.spec_identify(), now),
            r == notify_due(old(self)@, error.spec_identify(), now, error.spec_cooldown()),
    {
        let id = error.identify();
        let cooldown = error.cooldown();
        self.notify_if_due(now, id, cooldown)
    }

    /// When `id` last failed, if it ever did.
    pub fn last_seen(&self, id: &str) -> (r: Option<u64>)
        ensures
            r == (if self@.contains_key(id@) {
                Some(self@[id@])
            } else {
                None
            }),
    {
        lookup(&self.table, id)
    }

    /// The number of distinct identities recorded.
    pub fn len(&self) -> (r: usize)
        ensures
            r == self@.len(),
    {
        count(&self.table)
    }
}

impl Default for LoggedErrors {
    fn default() -> (r: Self)
        ensures
            r@ == Map::<Seq<char>, u64>::empty(),
    {
        Self::new()
    }
}

} // verus!
