use vstd::prelude::*;

use crate::clock::{instant_now, monotonic_clock_reading, nanos_since};
use crate::strmap::StrMap;

verus! {

/// How long an ACME challenge answer is served after it was stored: ten
/// minutes, in nanoseconds.
pub const CHALLENGE_TTL_NS: i64 = 600_000_000_000;

/// A challenge stored at `created` is still served at `now`.
pub open spec fn challenge_fresh(created: i64, now: i64) -> bool {
    now - created < CHALLENGE_TTL_NS
}

/// What a lookup of `path` at time `now` answers: the stored value while it is fresh.
pub open spec fn challenge_lookup(m: Map<Seq<char>, (String, i64)>, path: Seq<char>, now: i64) -> Option<
    Seq<char>,
> {
    if m.contains_key(path) && challenge_fresh(m[path].1, now) {
        Some(m[path].0@)
    } else {
        None
    }
}

/// The challenges that a cleanup at time `now` keeps: the fresh ones.
pub open spec fn challenge_cleanup(m: Map<Seq<char>, (String, i64)>, now: i64) -> Map<
    Seq<char>,
    (String, i64),
> {
    Map::new(|k: Seq<char>| m.contains_key(k) && challenge_fresh(m[k].1, now), |k: Seq<char>| m[k])
}

/// Answers to HTTP-01 challenges, keyed by the request path token, each with
/// the time at which it was stored. Times are nanoseconds on the store's
/// monotonic clock, which starts at zero when the store is made.
#[derive(Debug)]
pub struct ChallengeStore {
    challenges: StrMap<(String, i64)>,
    started: std::time::Instant,
}

impl ChallengeStore {
    /// The stored challenges: token to answer and time of storing.
    pub closed spec fn view(&self) -> Map<Seq<char>, (String, i64)> {
        self.challenges@
    }

    /// An empty store.
    pub fn new() -> (s: Self)
        ensures
            s@ == Map::<Seq<char>, (String, i64)>::empty(),
    {
        ChallengeStore { challenges: StrMap::new(), started: instant_now() }
    }

    /// Stores `value` for `path` as stored at time `now`, replacing an earlier answer.
    pub fn insert_at(&mut self, path: String, value: String, now: i64)
        ensures
            final(self)@ == old(self)@.insert(path@, (value, now)),
    {
        self.challenges.insert(path, (value, now));
    }

    /// Stores `value` for `path`, stamped with the store's current time.
    pub fn insert(&mut self, path: String, value: String)
        ensures
            exists|t: i64|
                #![trigger monotonic_clock_reading(t)]
                monotonic_clock_reading(t) && t >= 0 && final(self)@ == old(self)@.insert(
                    path@,
                    (value, t),
                ),
    {
        let now = nanos_since(&self.started);
        self.insert_at(path, value, now);
    }

    /// The answer for `path` as seen at time `now`.
    pub fn get_at(&self, path: &str, now: i64) -> (r: Option<String>)
        ensures
            match r {
                Some(v) => challenge_lookup(self@, path@, now) == Some(v@),
                None => challenge_lookup(self@, path@, now) is None,
            },
    {
        match self.challenges.get(path) {
            Some(entry) => {
                if (now as i128) - (entry.1 as i128) < (CHALLENGE_TTL_NS as i128) {
                    Some(entry.0.clone())
                } else {
                    None
                }
            },
            None => None,
        }
    }

    /// The answer for `path`, if it was stored less than ten minutes ago.
    pub fn get(&self, path: &str) -> (r: Option<String>)
        ensures
            exists|t: i64|
                #![trigger monotonic_clock_reading(t)]
                monotonic_clock_reading(t) && match r {
                    Some(v) => challenge_lookup(self@, path@, t) == Some(v@),
                    None => challenge_lookup(self@, path@, t) is None,
                },
    {
        let now = nanos_since(&self.started);
        self.get_at(path, now)
    }

    /// Drops every challenge that is no longer fresh at time `now`.
    pub fn cleanup_at(&mut self, now: i64)
        ensures
            final(self)@ == challenge_cleanup(old(self)@, now),
    {
        let ghost old_map = self@;
        let mut i: usize = 0;
        while i < self.challenges.len()
            invariant
                forall|k: Seq<char>|
                    #[trigger] self@.contains_key(k) ==> old_map.contains_key(k) && self@[k]
                        == old_map[k],
                forall|k: Seq<char>|
                    #[trigger] old_map.contains_key(k) && challenge_fresh(old_map[k].1, now)
                        ==> self@.contains_key(k),
                i <= self.challenges.pairs().len(),
                forall|j: int|
                    0 <= j < i ==> challenge_fresh(#[trigger] self.challenges.pairs()[j].1.1, now),
            decreases self.challenges.pairs().len() - i,
        {
            let (_, entry) = self.challenges.entry_at(i);
            let created = entry.1;
            if (now as i128) - (created as i128) < (CHALLENGE_TTL_NS as i128) {
                i = i + 1;
            } else {
                let ghost before = self.challenges.pairs();
                let ghost gone = before[i as int].0;
                let ghost before_map = self@;
                assert(self.challenges@.contains_key(before[i as int].0));
                assert(before_map[gone] == old_map[gone]);
                assert(!challenge_fresh(old_map[gone].1, now));
                self.challenges.remove_at(i);
                proof {
                    assert(self@ == before_map.remove(gone));
                    assert forall|j: int| 0 <= j < i implies challenge_fresh(
                        #[trigger] self.challenges.pairs()[j].1.1,
                        now,
                    ) by {
                        assert(self.challenges.pairs()[j] == before[j]);
                    }
                }
            }
        }
        assert forall|k: Seq<char>| #[trigger] self@.contains_key(k) implies challenge_fresh(
            self@[k].1,
            now,
        ) by {
            let j = choose|j: int|
                0 <= j < self.challenges.pairs().len() && #[trigger] self.challenges.pairs()[j].0
                    == k;
            assert(challenge_fresh(self.challenges.pairs()[j].1.1, now));
        }
        assert(self@ =~= challenge_cleanup(old_map, now));
    }

    /// Drops every challenge stored ten minutes ago or earlier.
    pub fn cleanup(&mut self)
        ensures
            exists|t: i64|
                #![trigger monotonic_clock_reading(t)]
                monotonic_clock_reading(t) && final(self)@ == challenge_cleanup(old(self)@, t),
    {
        let now = nanos_since(&self.started);
        self.cleanup_at(now);
    }
}

impl Default for ChallengeStore {
    fn default() -> (s: Self)
        ensures
            s@ == Map::<Seq<char>, (String, i64)>::empty(),
    {
        Self::new()
    }
}

/// A stored answer is served at every time less than ten minutes after it was
/// stored and at no later time; answers for other paths are not affected.
pub proof fn lemma_lookup_after_insert(
    m: Map<Seq<char>, (String, i64)>,
    path: Seq<char>,
    value: String,
    stored: i64,
    other: Seq<char>,
    now: i64,
)
    ensures
        challenge_lookup(m.insert(path, (value, stored)), path, now) == (if now - stored
            < CHALLENGE_TTL_NS {
            Some(value@)
        } else {
            None
        }),
        other != path ==> challenge_lookup(m.insert(path, (value, stored)), other, now)
            == challenge_lookup(m, other, now),
{
}

/// A cleanup at time `now` changes no answer given at time `now`.
pub proof fn lemma_cleanup_keeps_answers(m: Map<Seq<char>, (String, i64)>, path: Seq<char>, now: i64)
    ensures
        challenge_lookup(challenge_cleanup(m, now), path, now) == challenge_lookup(m, path, now),
{
}

/// An answer stored at time `t1` is found by a lookup at any time `t2` from
/// `t1` to less than ten minutes after it, and a cleanup at such a time keeps
/// it.
pub proof fn lemma_fresh_answer_found(
    m: Map<Seq<char>, (String, i64)>,
    path: Seq<char>,
    value: String,
    t1: i64,
    t2: i64,
)
    requires
        t1 <= t2 < t1 + CHALLENGE_TTL_NS,
    ensures
        challenge_lookup(m.insert(path, (value, t1)), path, t2) == Some(value@),
        challenge_cleanup(m.insert(path, (value, t1)), t2).contains_key(path),
        challenge_lookup(challenge_cleanup(m.insert(path, (value, t1)), t2), path, t2) == Some(
            value@,
        ),
{
}

} // verus!
