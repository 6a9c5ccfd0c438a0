//! Duplicate suppression with bounded memory.
//!
//! The overlapping fetch windows deliver the same event more than once; the
//! [`Deduplicator`] records the identifier of every emitted event and rejects
//! identifiers it has already seen.  To bound memory over a long run the set
//! is dropped and replaced by an empty one as soon as a check finds it above
//! its capacity, at the price of re-emitting events whose identifiers were
//! just forgotten.

use vstd::prelude::*;

verus! {

broadcast use vstd::seq_lib::seq_to_set_is_finite;

/// Whether an event with identifier `id` is novel for the recorded set `s`:
/// an event without an identifier is always novel, deliberately, so that no
/// keyless event is ever silently dropped.
pub open spec fn accept_would_emit(s: Set<Seq<char>>, id: Option<Seq<char>>) -> bool {
    match id {
        None => true,
        Some(i) => !s.contains(i),
    }
}

/// The recorded set after one `accept` call with identifier `id`.
pub open spec fn accept_next(s: Set<Seq<char>>, id: Option<Seq<char>>) -> Set<Seq<char>> {
    match id {
        None => s,
        Some(i) => s.insert(i),
    }
}

/// The recorded set after a whole sequence of `accept` calls.
pub open spec fn accept_all(s: Set<Seq<char>>, ids: Seq<Option<Seq<char>>>) -> Set<Seq<char>>
    decreases ids.len(),
{
    if ids.len() == 0 {
        s
    } else {
        accept_next(accept_all(s, ids.drop_last()), ids.last())
    }
}

/// Bounded set of the identifiers of already-emitted events.
pub struct Deduplicator {
    seen: Vec<String>,
    n_max: usize,
}

impl View for Deduplicator {
    type V = Set<Seq<char>>;

    closed spec fn view(&self) -> Set<Seq<char>> {
        self.ids().to_set()
    }
}

impl Deduplicator {
    /// The recorded identifiers in insertion order.
    closed spec fn ids(&self) -> Seq<Seq<char>> {
        self.seen@.map_values(|s: String| s@)
    }

    /// Internal invariant: no identifier is recorded twice, so the length of
    /// the store equals the cardinality of the recorded set.
    pub closed spec fn wf(&self) -> bool {
        self.ids().no_duplicates()
    }

    /// The capacity `N_max`: the size above which a reset check clears the set.
    pub closed spec fn cap(&self) -> usize {
        self.n_max
    }

    /// A fresh deduplicator: nothing recorded yet.
    pub fn new(n_max: usize) -> (d: Deduplicator)
        ensures
            d.wf(),
            d@ == Set::<Seq<char>>::empty(),
            d@.finite(),
            d.cap() == n_max,
    {
        let d = Deduplicator { seen: Vec::new(), n_max };
        proof {
            assert(d.ids() =~= Seq::<Seq<char>>::empty());
            assert(d@ =~= Set::<Seq<char>>::empty());
        }
        d
    }

    /// Whether `id` is already recorded.
    fn contains_id(&self, id: &String) -> (r: bool)
        ensures
            r == self@.contains(id@),
    {
        let mut k: usize = 0;
        while k < self.seen.len()
            invariant
                k <= self.seen.len(),
                forall|m: int| 0 <= m < k ==> self.ids()[m] != id@,
            decreases self.seen.len() - k,
        {
            if self.seen[k] == *id {
                assert(self.ids()[k as int] == id@);
                assert(self.ids().contains(id@));
                return true;
            }
            k += 1;
        }
        proof {
            if self@.contains(id@) {
                let m = choose|m: int| 0 <= m < self.ids().len() && self.ids()[m] == id@;
                assert(self.ids()[m] != id@);
            }
        }
        false
    }

    /// Decide novelty of the event with identifier `id` and record it.
    ///
    /// Returns true exactly when the event should be emitted: always for an
    /// event without an identifier, and otherwise exactly when the identifier
    /// had not been recorded before; a novel identifier is recorded.
    pub fn accept(&mut self, id: &Option<String>) -> (novel: bool)
        requires
            old(self).wf(),
        ensures
            final(self).wf(),
            final(self).cap() == old(self).cap(),
            novel == accept_would_emit(old(self)@, id.deep_view()),
            final(self)@ == accept_next(old(self)@, id.deep_view()),
            final(self)@.finite(),
            final(self)@.len() == old(self)@.len() + if novel && id is Some {
                1int
            } else {
                0int
            },
    {
        proof {
            old(self).ids().unique_seq_to_set();
        }
        match id {
            None => true,
            Some(s) => {
                if self.contains_id(s) {
                    proof {
                        assert(old(self)@.insert(s@) =~= old(self)@);
                    }
                    false
                } else {
                    self.seen.push(s.clone());
                    proof {
                        assert(self.ids() =~= old(self).ids().push(s@));
                        assert forall|i: int, j: int|
                            0 <= i < self.ids().len() && 0 <= j < self.ids().len() && i
                                != j implies self.ids()[i] != self.ids()[j] by {
                            if j == self.ids().len() - 1 {
                                assert(old(self).ids().contains(old(self).ids()[i]));
                            } else if i == self.ids().len() - 1 {
                                assert(old(self).ids().contains(old(self).ids()[j]));
                            }
                        }
                        assert(self@ =~= old(self)@.insert(s@)) by {
                            let newids = self.ids();
                            let oldids = old(self).ids();
                            assert forall|a: Seq<char>| newids.contains(a) implies oldids.to_set(
                            ).insert(s@).contains(a) by {
                                let i = choose|i: int|
                                    0 <= i < newids.len() && newids[i] == a;
                                if i < oldids.len() {
                                    assert(oldids[i] == a);
                                    assert(oldids.contains(a));
                                } else {
                                    assert(a == s@);
                                }
                            }
                            assert forall|a: Seq<char>|
                                oldids.to_set().insert(s@).contains(a) implies newids.contains(
                                a) by {
                                if a == s@ {
                                    assert(newids[newids.len() - 1] == a);
                                } else {
                                    let i = choose|i: int|
                                        0 <= i < oldids.len() && oldids[i] == a;
                                    assert(newids[i] == a);
                                }
                            }
                        }
                        self.ids().unique_seq_to_set();
                    }
                    true
                }
            },
        }
    }

    /// The number of recorded identifiers, the cardinality of the set.
    pub fn size(&self) -> (n: usize)
        requires
            self.wf(),
        ensures
            n == self@.len(),
    {
        proof {
            self.ids().unique_seq_to_set();
        }
        self.seen.len()
    }

    /// The reset check: when the set has grown past its capacity, replace it
    /// by an empty one.  Returns whether a reset happened, so the scheduler
    /// can impose its cooldown pause; either way the size is at most the
    /// capacity afterwards.
    pub fn reset_if_full(&mut self) -> (reset: bool)
        requires
            old(self).wf(),
        ensures
            final(self).wf(),
            final(self).cap() == old(self).cap(),
            reset == (old(self)@.len() > old(self).cap()),
            final(self)@ == if reset {
                Set::<Seq<char>>::empty()
            } else {
                old(self)@
            },
            final(self)@.finite(),
            final(self)@.len() <= final(self).cap(),
    {
        let n = self.size();
        if n > self.n_max {
            self.seen = Vec::new();
            proof {
                assert(self.ids() =~= Seq::<Seq<char>>::empty());
                assert(self@ =~= Set::<Seq<char>>::empty());
            }
            true
        } else {
            false
        }
    }
}

/// Law: `accept` is idempotent.  On a set that does not yet hold `i`, two
/// consecutive `accept` calls with the same identifier return true then
/// false, and the second call leaves the recorded set unchanged.
pub proof fn lemma_accept_idempotent(s: Set<Seq<char>>, i: Seq<char>)
    requires
        !s.contains(i),
    ensures
        accept_would_emit(s, Some(i)),
        !accept_would_emit(accept_next(s, Some(i)), Some(i)),
        accept_next(accept_next(s, Some(i)), Some(i)) == accept_next(s, Some(i)),
{
    assert(accept_next(accept_next(s, Some(i)), Some(i)) =~= accept_next(s, Some(i)));
}

/// Law: a reset forgets everything.  Immediately after the set was replaced
/// by an empty one, an `accept` call returns true for every identifier,
/// including ones that were recorded before the reset; duplicates may
/// therefore reappear right after a reset.
pub proof fn lemma_reset_forgets(i: Seq<char>)
    ensures
        accept_would_emit(Set::<Seq<char>>::empty(), Some(i)),
{
}

/// Each `accept` call grows the recorded set by at most one identifier.
proof fn lemma_accept_next_growth(s: Set<Seq<char>>, id: Option<Seq<char>>)
    requires
        s.finite(),
    ensures
        accept_next(s, id).finite(),
        accept_next(s, id).len() <= s.len() + 1,
{
    match id {
        None => {},
        Some(i) => {
            if s.contains(i) {
                assert(s.insert(i) =~= s);
            }
        },
    }
}

/// Law: a sequence of `accept` calls grows the recorded set by at most one
/// identifier per accepted event.
pub proof fn lemma_accept_all_growth(s: Set<Seq<char>>, ids: Seq<Option<Seq<char>>>)
    requires
        s.finite(),
    ensures
        accept_all(s, ids).finite(),
        accept_all(s, ids).len() <= s.len() + ids.len(),
    decreases ids.len(),
{
    if ids.len() > 0 {
        lemma_accept_all_growth(s, ids.drop_last());
        lemma_accept_next_growth(accept_all(s, ids.drop_last()), ids.last());
    }
}

/// Law: the recorded set stays within `n_max` up to the next reset check,
/// for every sequence of accepted events that fits in the room the previous
/// check left.  A check leaves at most `n_max` identifiers recorded, and by
/// [`lemma_accept_all_growth`] each accepted event adds at most one, so
/// immediately before the next check the size is at most `n_max` whenever
/// the events accepted in between fit in the remaining room; with more
/// events than room the size can pass `n_max` until that check runs.
pub proof fn lemma_size_before_check(s: Set<Seq<char>>, ids: Seq<Option<Seq<char>>>, n_max: nat)
    requires
        s.finite(),
        s.len() + ids.len() <= n_max,
    ensures
        accept_all(s, ids).finite(),
        accept_all(s, ids).len() <= n_max,
{
    lemma_accept_all_growth(s, ids);
}

} // verus!
