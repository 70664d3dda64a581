//! The subscription registry: the gossip actor's private mapping from topic
//! name to the local delivery queue registered for it.
//!
//! The registry is owned exclusively by the actor's control loop, which is
//! its only reader and writer.  A queue is referred to by a plain
//! [`SubscriberId`]: the loop that owns the real queue endpoints keeps the
//! association from identifier to endpoint.  Entries are only ever added or
//! overwritten — the design has no unsubscribe — and a second subscription
//! to the same topic replaces the first (last subscriber wins).

use vstd::prelude::*;

verus! {

/// Identifies one local delivery queue registered for a topic.
pub type SubscriberId = u64;

/// The entry that a search from the end of `s` finds for key `k`: the
/// identifier of the latest entry whose topic reads `k`, if any.
pub open spec fn find_entry(s: Seq<(String, SubscriberId)>, k: Seq<char>) -> Option<SubscriberId>
    decreases s.len(),
{
    if s.len() == 0 {
        None
    } else if s.last().0@ == k {
        Some(s.last().1)
    } else {
        find_entry(s.drop_last(), k)
    }
}

/// The mapping a sequence of entries denotes: each topic that occurs is
/// bound to its latest entry's identifier.
pub open spec fn entries_map(s: Seq<(String, SubscriberId)>) -> Map<Seq<char>, SubscriberId> {
    Map::new(|k: Seq<char>| find_entry(s, k) is Some, |k: Seq<char>| find_entry(s, k)->Some_0)
}

/// Mapping from topic name to the subscriber registered for it.
pub struct Registry {
    entries: Vec<(String, SubscriberId)>,
}

/// If no entry of `s` has key `k`, a search finds nothing.
proof fn lemma_find_absent(s: Seq<(String, SubscriberId)>, k: Seq<char>)
    requires
        forall|j: int| 0 <= j < s.len() ==> (#[trigger] s[j]).0@ != k,
    ensures
        find_entry(s, k) is None,
    decreases s.len(),
{
    if s.len() > 0 {
        lemma_find_absent(s.drop_last(), k);
    }
}

/// In a sequence with pairwise-distinct keys, the search finds exactly the
/// one entry whose key matches.
proof fn lemma_find_at(s: Seq<(String, SubscriberId)>, k: Seq<char>, i: int)
    requires
        forall|m: int, j: int|
            0 <= m < j < s.len() ==> (#[trigger] s[m]).0@ != (#[trigger] s[j]).0@,
        0 <= i < s.len(),
        s[i].0@ == k,
    ensures
        find_entry(s, k) == Some(s[i].1),
    decreases s.len(),
{
    if i == s.len() - 1 {
    } else {
        assert(s.last().0@ != k);
        lemma_find_at(s.drop_last(), k, i);
    }
}

/// Replacing the entry at `i` by one with the same key rebinds that key and
/// leaves every other key's search result unchanged.
proof fn lemma_find_update(
    s: Seq<(String, SubscriberId)>,
    i: int,
    t: String,
    v: SubscriberId,
    k2: Seq<char>,
)
    requires
        forall|m: int, j: int|
            0 <= m < j < s.len() ==> (#[trigger] s[m]).0@ != (#[trigger] s[j]).0@,
        0 <= i < s.len(),
        s[i].0@ == t@,
    ensures
        find_entry(s.update(i, (t, v)), k2) == if k2 == t@ {
            Some(v)
        } else {
            find_entry(s, k2)
        },
    decreases s.len(),
{
    let s2 = s.update(i, (t, v));
    if i == s.len() - 1 {
        assert(s2.drop_last() =~= s.drop_last());
    } else {
        assert(s2.last() == s.last());
        assert(s.last().0@ != t@);
        assert(s2.drop_last() =~= s.drop_last().update(i, (t, v)));
        lemma_find_update(s.drop_last(), i, t, v, k2);
    }
}

/// The topics of the entries are pairwise distinct.
pub open spec fn distinct_keys(s: Seq<(String, SubscriberId)>) -> bool {
    forall|m: int, j: int| 0 <= m < j < s.len() ==> (#[trigger] s[m]).0@ != (#[trigger] s[j]).0@
}

impl Registry {
    /// The keys of the entries are pairwise distinct, so an overwrite in
    /// place rebinds exactly one topic.
    pub closed spec fn wf(&self) -> bool {
        distinct_keys(self.entries@)
    }

    /// The mapping the registry holds.
    pub closed spec fn view(&self) -> Map<Seq<char>, SubscriberId> {
        entries_map(self.entries@)
    }

    /// An empty registry.
    pub fn new() -> (r: Registry)
        ensures
            r.wf(),
            r@ == Map::<Seq<char>, SubscriberId>::empty(),
    {
        let r = Registry { entries: Vec::new() };
        proof {
            assert(r@ =~= Map::<Seq<char>, SubscriberId>::empty());
        }
        r
    }

    /// Register `id` for `topic`, overwriting any earlier registration for
    /// the same topic: last subscriber wins.
    pub fn insert(&mut self, topic: String, id: SubscriberId)
        requires
            old(self).wf(),
        ensures
            final(self).wf(),
            final(self)@ == old(self)@.insert(topic@, id),
    {
        let ghost s0 = self.entries@;
        let mut i: usize = 0;
        while i < self.entries.len()
            invariant
                self.entries@ == s0,
                s0 == old(self).entries@,
                distinct_keys(s0),
                i <= s0.len(),
                forall|j: int| 0 <= j < i ==> (#[trigger] s0[j]).0@ != topic@,
            decreases s0.len() - i,
        {
            if self.entries[i].0 == topic {
                let ghost t = topic;
                self.entries.set(i, (topic, id));
                proof {
                    assert forall|k2: Seq<char>| true implies find_entry(
                        self.entries@,
                        k2,
                    ) == if k2 == t@ {
                        Some(id)
                    } else {
                        find_entry(s0, k2)
                    } by {
                        lemma_find_update(s0, i as int, t, id, k2);
                        assert(self.entries@ =~= s0.update(i as int, (t, id)));
                    }
                    assert(final(self)@ =~= old(self)@.insert(t@, id));
                    assert forall|m: int, j: int|
                        0 <= m < j < self.entries@.len() implies (#[trigger] self.entries@[m]).0@
                        != (#[trigger] self.entries@[j]).0@ by {
                        assert(s0[m].0@ != s0[j].0@);
                    }
                }
                return ;
            }
            i += 1;
        }
        self.entries.push((topic, id));
        proof {
            assert(self.entries@.drop_last() =~= s0);
            assert(final(self)@ =~= old(self)@.insert(self.entries@.last().0@, id));
            assert forall|m: int, j: int|
                0 <= m < j < self.entries@.len() implies (#[trigger] self.entries@[m]).0@ != (
            #[trigger] self.entries@[j]).0@ by {
                if j < self.entries@.len() - 1 {
                    assert(s0[m].0@ != s0[j].0@);
                } else {
                    assert(s0[m].0@ != topic@);
                }
            }
        }
    }

    /// Look up the subscriber registered for `topic`, if any.
    pub fn lookup(&self, topic: &String) -> (r: Option<SubscriberId>)
        requires
            self.wf(),
        ensures
            r == if self@.contains_key(topic@) {
                Some(self@[topic@])
            } else {
                None::<SubscriberId>
            },
    {
        let ghost s0 = self.entries@;
        let mut i: usize = 0;
        while i < self.entries.len()
            invariant
                self.entries@ == s0,
                distinct_keys(s0),
                i <= s0.len(),
                forall|j: int| 0 <= j < i ==> (#[trigger] s0[j]).0@ != topic@,
            decreases s0.len() - i,
        {
            if self.entries[i].0 == *topic {
                proof {
                    lemma_find_at(s0, topic@, i as int);
                }
                return Some(self.entries[i].1);
            }
            i += 1;
        }
        proof {
            lemma_find_absent(s0, topic@);
        }
        None
    }
}

} // verus!
