//! The identities that a key agent holds, by comment.

use vstd::prelude::*;

verus! {

/// One public key of an agent.
#[derive(Debug, PartialEq, Eq)]
pub struct Identity {
    /// The label that the agent shows for the key.
    pub comment: String,
    /// The public key itself.
    pub blob: Vec<u8>,
}

impl View for Identity {
    type V = (Seq<char>, Seq<u8>);

    open spec fn view(&self) -> (Seq<char>, Seq<u8>) {
        (self.comment@, self.blob@)
    }
}

/// A listing as pairs of comment and key.
pub open spec fn pairs_of(ids: Seq<Identity>) -> Seq<(Seq<char>, Seq<u8>)> {
    ids.map_values(|id: Identity| id@)
}

/// The mapping that a listing gives when it is read front to back and every
/// pair is entered under its comment: of two keys with one comment the later
/// one stays.
pub open spec fn collected(pairs: Seq<(Seq<char>, Seq<u8>)>) -> Map<Seq<char>, Seq<u8>>
    decreases pairs.len(),
{
    if pairs.len() == 0 {
        Map::empty()
    } else {
        collected(pairs.drop_last()).insert(pairs.last().0, pairs.last().1)
    }
}

/// No comment occurs twice in the listing.
pub open spec fn distinct_comments(pairs: Seq<(Seq<char>, Seq<u8>)>) -> bool {
    forall|i: int, j: int| 0 <= i < j < pairs.len() ==> pairs[i].0 != pairs[j].0
}

/// The comments of a collected listing are those of its pairs, and there are
/// finitely many.
pub proof fn law_keys_are_comments(pairs: Seq<(Seq<char>, Seq<u8>)>)
    ensures
        collected(pairs).dom().finite(),
        collected(pairs).len() <= pairs.len(),
        forall|k: Seq<char>| #[trigger]
            collected(pairs).contains_key(k) <==> exists|i: int|
                0 <= i < pairs.len() && #[trigger] pairs[i].0 == k,
    decreases pairs.len(),
{
    if pairs.len() > 0 {
        let front = pairs.drop_last();
        law_keys_are_comments(front);
        assert forall|k: Seq<char>| #[trigger]
            collected(pairs).contains_key(k) implies exists|i: int|
            0 <= i < pairs.len() && #[trigger] pairs[i].0 == k by {
            if k == pairs.last().0 {
                assert(pairs[pairs.len() - 1].0 == k);
            } else {
                assert(collected(front).contains_key(k));
                let i = choose|i: int| 0 <= i < front.len() && #[trigger] front[i].0 == k;
                assert(pairs[i].0 == k);
            }
        }
        assert forall|k: Seq<char>|
            (exists|i: int| 0 <= i < pairs.len() && #[trigger] pairs[i].0 == k) implies #[trigger]
            collected(pairs).contains_key(k) by {
            let i = choose|i: int| 0 <= i < pairs.len() && #[trigger] pairs[i].0 == k;
            if i < front.len() {
                assert(front[i].0 == k);
            }
        }
    }
}

/// Last write wins: a pair whose comment does not come again later in the
/// listing is the one that the mapping holds under that comment.
pub proof fn law_last_write_wins(pairs: Seq<(Seq<char>, Seq<u8>)>, i: int)
    requires
        0 <= i < pairs.len(),
        forall|j: int| i < j < pairs.len() ==> pairs[j].0 != pairs[i].0,
    ensures
        collected(pairs).contains_key(pairs[i].0),
        collected(pairs)[pairs[i].0] == pairs[i].1,
    decreases pairs.len(),
{
    if i < pairs.len() - 1 {
        let front = pairs.drop_last();
        assert(front[i] == pairs[i]);
        assert forall|j: int| i < j < front.len() implies front[j].0 != front[i].0 by {
            assert(front[j] == pairs[j]);
        }
        law_last_write_wins(front, i);
    }
}

/// Where the agent's identities have distinct comments, none is lost: the
/// mapping has one entry for each, under its comment, with its key.
pub proof fn law_distinct_comments_all_kept(pairs: Seq<(Seq<char>, Seq<u8>)>)
    requires
        distinct_comments(pairs),
    ensures
        collected(pairs).dom().finite(),
        collected(pairs).len() == pairs.len(),
        forall|i: int|
            0 <= i < pairs.len() ==> collected(pairs).contains_key(#[trigger] pairs[i].0)
                && collected(pairs)[pairs[i].0] == pairs[i].1,
    decreases pairs.len(),
{
    law_keys_are_comments(pairs);
    if pairs.len() > 0 {
        let front = pairs.drop_last();
        law_distinct_comments_all_kept(front);
        law_keys_are_comments(front);
        let n = pairs.len() - 1;
        if collected(front).contains_key(pairs.last().0) {
            let i = choose|i: int| 0 <= i < front.len() && #[trigger] front[i].0 == pairs.last().0;
            assert(pairs[i].0 == pairs[n].0);
        }
    }
    assert forall|i: int| 0 <= i < pairs.len() implies collected(pairs).contains_key(
        #[trigger] pairs[i].0,
    ) && collected(pairs)[pairs[i].0] == pairs[i].1 by {
        law_last_write_wins(pairs, i);
    }
}

/// Putting a new key under the comment of the pair at `i` of a listing
/// without repeated comments is entering that key under that comment.
proof fn lemma_replace_is_insert(pairs: Seq<(Seq<char>, Seq<u8>)>, i: int, blob: Seq<u8>)
    requires
        0 <= i < pairs.len(),
        distinct_comments(pairs),
    ensures
        collected(pairs.update(i, (pairs[i].0, blob))) == collected(pairs).insert(
            pairs[i].0,
            blob,
        ),
    decreases pairs.len(),
{
    let n = pairs.len() - 1;
    let changed = pairs.update(i, (pairs[i].0, blob));
    let front = pairs.drop_last();
    if i == n {
        assert(changed.drop_last() == front);
        assert(collected(changed) == collected(pairs).insert(pairs[i].0, blob));
    } else {
        assert(changed.drop_last() == front.update(i, (front[i].0, blob)));
        assert(distinct_comments(front)) by {
            assert forall|a: int, b: int| 0 <= a < b < front.len() implies front[a].0
                != front[b].0 by {
                assert(front[a] == pairs[a] && front[b] == pairs[b]);
            }
        }
        lemma_replace_is_insert(front, i, blob);
        assert(pairs[i].0 != pairs[n].0);
        assert(collected(changed) == collected(pairs).insert(pairs[i].0, blob));
    }
}

/// The identities of an agent by comment. No comment occurs twice.
#[derive(Debug)]
pub struct IdentityMap {
    entries: Vec<Identity>,
}

impl View for IdentityMap {
    type V = Map<Seq<char>, Seq<u8>>;

    closed spec fn view(&self) -> Map<Seq<char>, Seq<u8>> {
        collected(pairs_of(self.entries@))
    }
}

impl IdentityMap {
    #[verifier::type_invariant]
    spec fn distinct(&self) -> bool {
        distinct_comments(pairs_of(self.entries@))
    }

    /// The mapping without entries.
    pub fn new() -> (m: IdentityMap)
        ensures
            m@ == Map::<Seq<char>, Seq<u8>>::empty(),
    {
        IdentityMap { entries: Vec::new() }
    }

    /// The place of `comment` among the entries, if it is there.
    fn position(&self, comment: &String) -> (at: Option<usize>)
        ensures
            match at {
                Some(i) => i < self.entries@.len() && self.entries@[i as int].comment@
                    == comment@,
                None => forall|i: int|
                    0 <= i < self.entries@.len() ==> (#[trigger] self.entries@[i]).comment@
                        != comment@,
            },
    {
        let mut i: usize = 0;
        while i < self.entries.len()
            invariant
                i <= self.entries@.len(),
                forall|j: int| 0 <= j < i ==> (#[trigger] self.entries@[j]).comment@ != comment@,
            decreases self.entries@.len() - i,
        {
            if self.entries[i].comment == *comment {
                return Some(i);
            }
            i += 1;
        }
        None
    }

    /// Enters `blob` under `comment`. A key that was there under that comment
    /// is replaced.
    pub fn insert(&mut self, comment: String, blob: Vec<u8>)
        ensures
            final(self)@ == old(self)@.insert(comment@, blob@),
    {
        proof {
            use_type_invariant(&*self);
        }
        let ghost before = pairs_of(self.entries@);
        let ghost key = comment@;
        let ghost value = blob@;
        let at = self.position(&comment);
        let mut entries: Vec<Identity> = Vec::new();
        core::mem::swap(&mut entries, &mut self.entries);
        match at {
            Some(i) => {
                entries.set(i, Identity { comment, blob });
                proof {
                    lemma_replace_is_insert(before, i as int, value);
                    assert(pairs_of(entries@) == before.update(i as int, (key, value)));
                }
            },
            None => {
                entries.push(Identity { comment, blob });
                proof {
                    assert(pairs_of(entries@).drop_last() == before);
                }
            },
        }
        proof {
            assert forall|a: int, b: int| 0 <= a < b < entries@.len() implies pairs_of(
                entries@,
            )[a].0 != pairs_of(entries@)[b].0 by {
                if b < before.len() {
                    assert(before[a].0 != before[b].0);
                } else {
                    assert(old(self).entries@[a].comment@ != key);
                }
            }
        }
        self.entries = entries;
    }

    /// The key under `comment`, if there is one.
    pub fn get(&self, comment: &str) -> (found: Option<&Vec<u8>>)
        ensures
            match found {
                Some(blob) => self@.contains_key(comment@) && self@[comment@] == blob@,
                None => !self@.contains_key(comment@),
            },
    {
        proof {
            use_type_invariant(self);
            law_keys_are_comments(pairs_of(self.entries@));
        }
        let key = comment.to_owned();
        match self.position(&key) {
            Some(i) => {
                proof {
                    law_distinct_comments_all_kept(pairs_of(self.entries@));
                    assert(pairs_of(self.entries@)[i as int].0 == comment@);
                }
                Some(&self.entries[i].blob)
            },
            None => {
                proof {
                    assert forall|i: int| 0 <= i < pairs_of(self.entries@).len() implies (
                    #[trigger] pairs_of(self.entries@)[i]).0 != comment@ by {
                        assert(self.entries@[i].comment@ != comment@);
                    }
                }
                None
            },
        }
    }

    /// Whether there is a key under `comment`.
    pub fn contains_key(&self, comment: &str) -> (b: bool)
        ensures
            b == self@.contains_key(comment@),
    {
        self.get(comment).is_some()
    }

    /// How many comments have a key.
    pub fn len(&self) -> (n: usize)
        ensures
            self@.dom().finite(),
            n == self@.len(),
    {
        proof {
            use_type_invariant(self);
            law_distinct_comments_all_kept(pairs_of(self.entries@));
        }
        self.entries.len()
    }

    /// Whether the mapping has no entry.
    pub fn is_empty(&self) -> (b: bool)
        ensures
            b == (self@ == Map::<Seq<char>, Seq<u8>>::empty()),
    {
        proof {
            use_type_invariant(self);
            law_keys_are_comments(pairs_of(self.entries@));
            if self.entries@.len() > 0 {
                assert(pairs_of(self.entries@)[0].0 == self.entries@[0].comment@);
                assert(self@.contains_key(self.entries@[0].comment@));
            }
        }
        self.entries.len() == 0
    }

    /// The entries one by one, each comment once.
    pub fn entries(&self) -> (list: &Vec<Identity>)
        ensures
            distinct_comments(pairs_of(list@)),
            collected(pairs_of(list@)) == self@,
    {
        proof {
            use_type_invariant(self);
        }
        &self.entries
    }

    /// Reads a listing front to back into a mapping.
    pub fn collect(ids: Vec<Identity>) -> (m: IdentityMap)
        ensures
            m@ == collected(pairs_of(ids@)),
    {
        let mut m = IdentityMap::new();
        let ghost all = pairs_of(ids@);
        for id in it: ids
            invariant
                it.seq() == ids@,
                all == pairs_of(ids@),
                m@ == collected(all.subrange(0, it.index())),
        {
            proof {
                assert(all.subrange(0, it.index() + 1).drop_last() == all.subrange(
                    0,
                    it.index(),
                ));
            }
            m.insert(id.comment, id.blob);
        }
        proof {
            assert(all.subrange(0, all.len() as int) == all);
        }
        m
    }
}

} // verus!
