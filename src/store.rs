//! The challenge store: challenge id to expected answer and expiry, with
//! single-use verification and a sweep of expired entries.

use dashmap::DashMap;
use vstd::prelude::*;

use crate::clock::now_unix;
use crate::text::{ascii_ci_eq, eq_ignore_ascii_case, trim, trimmed};

verus! {

#[verifier::external_type_specification]
#[verifier::external_body]
#[verifier::reject_recursive_types(K)]
#[verifier::reject_recursive_types(V)]
#[verifier::reject_recursive_types(S)]
pub struct ExDashMap<K, V, S>(DashMap<K, V, S>);

/// One outstanding challenge: the expected answer and the second (Unix time)
/// after which it no longer verifies.
#[derive(Debug)]
pub struct CaptchaEntry {
    pub answer: String,
    pub expires_at: i64,
}

impl View for CaptchaEntry {
    type V = (Seq<char>, i64);

    open spec fn view(&self) -> (Seq<char>, i64) {
        (self.answer@, self.expires_at)
    }
}

impl CaptchaEntry {
    /// Whether the entry still counts at time `now`.
    pub fn is_live_at(&self, now: i64) -> (r: bool)
        ensures
            r == (self.expires_at >= now),
    {
        self.expires_at >= now
    }
}

/// What a challenge map holds: each id with its answer and expiry.
pub uninterp spec fn entries_of(m: DashMap<String, CaptchaEntry>) -> Map<Seq<char>, (Seq<char>, i64)>;

/// Relies on `DashMap::new`: a new map is empty.
#[verifier::external_body]
fn map_new() -> (r: DashMap<String, CaptchaEntry>)
    ensures
        entries_of(r) =~= Map::empty(),
{
    DashMap::new()
}

/// Relies on `DashMap::insert`: the key now maps to the value, replacing any
/// earlier one; other keys are untouched.
#[verifier::external_body]
fn map_insert(m: &mut DashMap<String, CaptchaEntry>, key: String, value: CaptchaEntry)
    ensures
        entries_of(*final(m)) == entries_of(*old(m)).insert(key@, value@),
{
    m.insert(key, value);
}

/// Relies on `DashMap::get`: a copy of the entry under the key, if any.
#[verifier::external_body]
fn map_get(m: &DashMap<String, CaptchaEntry>, key: &str) -> (r: Option<(String, i64)>)
    ensures
        entries_of(*m).contains_key(key@) <==> r is Some,
        r matches Some(e) ==> entries_of(*m)[key@] == (e.0@, e.1),
{
    m.get(key).map(|e| (e.answer.clone(), e.expires_at))
}

/// Relies on `DashMap::remove`: the key is gone; other keys are untouched.
#[verifier::external_body]
fn map_remove(m: &mut DashMap<String, CaptchaEntry>, key: &str)
    ensures
        entries_of(*final(m)) == entries_of(*old(m)).remove(key@),
{
    m.remove(key);
}

/// Relies on `DashMap::retain`: exactly the entries that are live at `now` stay.
#[verifier::external_body]
fn map_retain_live(m: &mut DashMap<String, CaptchaEntry>, now: i64)
    ensures
        entries_of(*final(m)) == live_entries(entries_of(*old(m)), now),
{
    m.retain(|_, e| e.is_live_at(now));
}

/// The entries of `m` that have not expired at time `now`.
pub open spec fn live_entries(m: Map<Seq<char>, (Seq<char>, i64)>, now: i64) -> Map<
    Seq<char>,
    (Seq<char>, i64),
> {
    Map::new(|k: Seq<char>| m.contains_key(k) && m[k].1 >= now, |k: Seq<char>| m[k])
}

/// Whether `input`, trimmed, is the expected `answer` up to ASCII case.
pub open spec fn answer_matches(answer: Seq<char>, input: Seq<char>) -> bool {
    ascii_ci_eq(answer, trimmed(input))
}

/// The outcome of submitting `input` for challenge `id` at time `now`, and the
/// entries that remain afterwards.
pub open spec fn consume_outcome(
    m: Map<Seq<char>, (Seq<char>, i64)>,
    id: Seq<char>,
    input: Seq<char>,
    now: i64,
) -> (bool, Map<Seq<char>, (Seq<char>, i64)>) {
    if !m.contains_key(id) {
        (false, m)
    } else if m[id].1 < now {
        (false, m.remove(id))
    } else if answer_matches(m[id].0, input) {
        (true, m.remove(id))
    } else {
        (false, m)
    }
}

/// Outstanding challenges keyed by id.
#[derive(Debug)]
pub struct CaptchaStore {
    map: DashMap<String, CaptchaEntry>,
}

impl View for CaptchaStore {
    type V = Map<Seq<char>, (Seq<char>, i64)>;

    closed spec fn view(&self) -> Map<Seq<char>, (Seq<char>, i64)> {
        entries_of(self.map)
    }
}

impl Default for CaptchaStore {
    fn default() -> (r: CaptchaStore)
        ensures
            r@ =~= Map::empty(),
    {
        CaptchaStore { map: map_new() }
    }
}

impl CaptchaStore {
    /// An empty store.
    pub fn new() -> (r: CaptchaStore)
        ensures
            r@ =~= Map::empty(),
    {
        CaptchaStore { map: map_new() }
    }

    /// Records a challenge under `id`, replacing any earlier one.
    pub fn insert(&mut self, id: String, entry: CaptchaEntry)
        ensures
            final(self)@ == old(self)@.insert(id@, entry@),
    {
        map_insert(&mut self.map, id, entry);
    }

    /// Whether a challenge is outstanding under `id`, with its answer and expiry.
    pub fn lookup(&self, id: &str) -> (r: Option<(String, i64)>)
        ensures
            self@.contains_key(id@) <==> r is Some,
            r matches Some(e) ==> self@[id@] == (e.0@, e.1),
    {
        map_get(&self.map, id)
    }

    /// Checks `user_input` against challenge `id` as of time `now`. An absent
    /// challenge fails; an expired one fails and is removed; a matching answer
    /// (trimmed, ASCII case ignored) succeeds and removes the challenge; a wrong
    /// answer fails and leaves it in place.
    pub fn verify_and_consume_at(&mut self, id: &str, user_input: &str, now: i64) -> (r: bool)
        ensures
            (r, final(self)@) == consume_outcome(old(self)@, id@, user_input@, now),
    {
        let entry = match map_get(&self.map, id) {
            Some(e) => e,
            None => {
                return false;
            },
        };
        if entry.1 < now {
            map_remove(&mut self.map, id);
            return false;
        }
        let ok = eq_ignore_ascii_case(entry.0.as_str(), trim(user_input));
        if ok {
            map_remove(&mut self.map, id);
        }
        ok
    }

    /// Checks `user_input` against challenge `id` at the current time; see
    /// `verify_and_consume_at`.
    pub fn verify_and_consume(&mut self, id: &str, user_input: &str) -> (r: bool)
        ensures
            exists|now: i64|
                (r, final(self)@) == #[trigger] consume_outcome(old(self)@, id@, user_input@, now),
    {
        let now = now_unix();
        self.verify_and_consume_at(id, user_input, now)
    }

    /// Removes every challenge that has expired at time `now`.
    pub fn cleanup_expired_at(&mut self, now: i64)
        ensures
            final(self)@ == live_entries(old(self)@, now),
    {
        map_retain_live(&mut self.map, now);
    }

    /// Removes every challenge that has expired at the current time.
    pub fn cleanup_expired(&mut self)
        ensures
            exists|now: i64| final(self)@ == #[trigger] live_entries(old(self)@, now),
    {
        let now = now_unix();
        self.cleanup_expired_at(now);
    }
}

/// How many of the submissions `subs` (answer and time, in order) succeed for
/// challenge `id`, starting from the entries `m`.
pub open spec fn successes(
    m: Map<Seq<char>, (Seq<char>, i64)>,
    id: Seq<char>,
    subs: Seq<(Seq<char>, i64)>,
) -> nat
    decreases subs.len(),
{
    if subs.len() == 0 {
        0
    } else {
        let (ok, rest) = consume_outcome(m, id, subs[0].0, subs[0].1);
        (if ok {
            1nat
        } else {
            0nat
        }) + successes(rest, id, subs.drop_first())
    }
}

/// Once no challenge is outstanding under `id`, no submission for it succeeds.
pub proof fn lemma_absent_never_succeeds(
    m: Map<Seq<char>, (Seq<char>, i64)>,
    id: Seq<char>,
    subs: Seq<(Seq<char>, i64)>,
)
    requires
        !m.contains_key(id),
    ensures
        successes(m, id, subs) == 0,
    decreases subs.len(),
{
    if subs.len() > 0 {
        lemma_absent_never_succeeds(m, id, subs.drop_first());
    }
}

/// A challenge is consumed at most once: however many submissions are made for
/// one id, with whatever answers and at whatever times, at most one succeeds.
pub proof fn lemma_consumed_at_most_once(
    m: Map<Seq<char>, (Seq<char>, i64)>,
    id: Seq<char>,
    subs: Seq<(Seq<char>, i64)>,
)
    ensures
        successes(m, id, subs) <= 1,
    decreases subs.len(),
{
    if subs.len() > 0 {
        let (ok, rest) = consume_outcome(m, id, subs[0].0, subs[0].1);
        if ok {
            lemma_absent_never_succeeds(rest, id, subs.drop_first());
        } else {
            lemma_consumed_at_most_once(rest, id, subs.drop_first());
        }
    }
}

/// An expired challenge never verifies, even with the right answer, and the
/// attempt removes it.
pub proof fn lemma_expired_rejected_and_removed(
    m: Map<Seq<char>, (Seq<char>, i64)>,
    id: Seq<char>,
    input: Seq<char>,
    now: i64,
)
    requires
        m.contains_key(id),
        m[id].1 < now,
    ensures
        consume_outcome(m, id, input, now) == (false, m.remove(id)),
        !consume_outcome(m, id, input, now).1.contains_key(id),
{
}

} // verus!
