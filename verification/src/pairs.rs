//! The pair collection: a mapping from key text to value text with unique
//! keys, held as a vector of pairs and viewed as a `Map` of character
//! sequences.

use vstd::prelude::*;

verus! {

/// One committed key/value pair.
pub struct Pair {
    pub key: String,
    pub value: String,
}

/// The collection of committed pairs; keys are unique.
pub struct Pairs {
    pub list: Vec<Pair>,
}

/// The mapping a sequence of pairs stands for; a later entry with the same
/// key overwrites an earlier one.
pub open spec fn map_of(s: Seq<Pair>) -> Map<Seq<char>, Seq<char>>
    decreases s.len(),
{
    if s.len() == 0 {
        Map::empty()
    } else {
        map_of(s.drop_last()).insert(s.last().key@, s.last().value@)
    }
}

/// Unique keys: no two entries share a key.
pub open spec fn unique_keys(s: Seq<Pair>) -> bool {
    forall|i: int, j: int|
        0 <= i < j < s.len() ==> (#[trigger] s[i].key@) != (#[trigger] s[j].key@)
}

proof fn lemma_unique_keys_drop_last(s: Seq<Pair>)
    requires
        unique_keys(s),
        s.len() > 0,
    ensures
        unique_keys(s.drop_last()),
{
    assert forall|a: int, b: int|
        0 <= a < b < s.drop_last().len() implies (#[trigger] s.drop_last()[a].key@) != (
    #[trigger] s.drop_last()[b].key@) by {
        assert(s[a].key@ != s[b].key@);
    }
}

/// The mapping contains exactly the keys of the entries.
pub proof fn lemma_map_of_contains(s: Seq<Pair>, x: Seq<char>)
    ensures
        map_of(s).contains_key(x) <==> exists|j: int| 0 <= j < s.len() && (#[trigger] s[j].key@)
            == x,
    decreases s.len(),
{
    if s.len() > 0 {
        lemma_map_of_contains(s.drop_last(), x);
        if s.last().key@ == x {
            assert(s[s.len() - 1].key@ == x);
        } else if map_of(s).contains_key(x) {
            let j = choose|j: int| 0 <= j < s.drop_last().len() && (#[trigger] s.drop_last()[j].key@) == x;
            assert(s[j].key@ == x);
        } else {
            assert forall|j: int| 0 <= j < s.len() implies (#[trigger] s[j].key@) != x by {
                if j < s.len() - 1 {
                    assert(s.drop_last()[j].key@ == s[j].key@);
                }
            }
        }
    }
}

/// Under unique keys, each entry is what the mapping gives for its key.
pub proof fn lemma_map_of_index(s: Seq<Pair>, i: int)
    requires
        unique_keys(s),
        0 <= i < s.len(),
    ensures
        map_of(s).contains_key(s[i].key@),
        map_of(s)[s[i].key@] == s[i].value@,
    decreases s.len(),
{
    if i == s.len() - 1 {
        assert(s[i] == s.last());
    } else {
        assert(s.drop_last()[i] == s[i]);
        lemma_unique_keys_drop_last(s);
        lemma_map_of_index(s.drop_last(), i);
        assert(s[i].key@ != s.last().key@) by {
            assert(s[s.len() - 1] == s.last());
        }
    }
}

/// Replacing the value of the entry that holds a key updates the mapping at
/// that key alone.
pub proof fn lemma_map_of_update(s: Seq<Pair>, i: int, p: Pair)
    requires
        unique_keys(s),
        0 <= i < s.len(),
        p.key@ == s[i].key@,
    ensures
        map_of(s.update(i, p)) == map_of(s).insert(p.key@, p.value@),
    decreases s.len(),
{
    let t = s.update(i, p);
    if i == s.len() - 1 {
        assert(t.drop_last() =~= s.drop_last());
        assert(t.last() == p);
        assert(map_of(t) =~= map_of(s).insert(p.key@, p.value@));
    } else {
        assert(t.drop_last() =~= s.drop_last().update(i, p));
        assert(t.last() == s.last());
        assert(s.drop_last()[i] == s[i]);
        lemma_unique_keys_drop_last(s);
        lemma_map_of_update(s.drop_last(), i, p);
        assert(s[i].key@ != s.last().key@) by {
            assert(s[s.len() - 1] == s.last());
        }
        assert(map_of(t) =~= map_of(s).insert(p.key@, p.value@));
    }
}

/// Under unique keys, the mapping has exactly one key per entry.
pub proof fn lemma_map_of_dom_len(s: Seq<Pair>)
    requires
        unique_keys(s),
    ensures
        map_of(s).dom().finite(),
        map_of(s).dom().len() == s.len(),
    decreases s.len(),
{
    if s.len() > 0 {
        lemma_unique_keys_drop_last(s);
        lemma_map_of_dom_len(s.drop_last());
        lemma_map_of_contains(s.drop_last(), s.last().key@);
        assert forall|j: int|
            0 <= j < s.drop_last().len() implies (#[trigger] s.drop_last()[j].key@) != s.last().key@ by {
            assert(s[j].key@ != s[s.len() - 1].key@);
        }
        assert(!map_of(s.drop_last()).contains_key(s.last().key@));
        assert(map_of(s).dom() =~= map_of(s.drop_last()).dom().insert(s.last().key@));
    }
}

/// Law: committing a pair stores it. After the commit the key maps to the
/// committed value; a key that was already present is overwritten and the
/// number of keys stays the same; a new key grows the collection by one.
pub proof fn lemma_commit_overwrites(m: Map<Seq<char>, Seq<char>>, k: Seq<char>, v: Seq<char>)
    requires
        m.dom().finite(),
    ensures
        m.insert(k, v)[k] == v,
        m.contains_key(k) ==> m.insert(k, v).dom().len() == m.dom().len(),
        !m.contains_key(k) ==> m.insert(k, v).dom().len() == m.dom().len() + 1,
{
    assert(m.insert(k, v).dom() =~= m.dom().insert(k));
    vstd::set::axiom_set_insert_len(m.dom(), k);
    if m.contains_key(k) {
        assert(m.dom().insert(k) =~= m.dom());
    }
}

impl View for Pairs {
    type V = Map<Seq<char>, Seq<char>>;

    open spec fn view(&self) -> Map<Seq<char>, Seq<char>> {
        map_of(self.list@)
    }
}

impl Pairs {
    /// The collection invariant: keys are unique.
    pub open spec fn wf(&self) -> bool {
        unique_keys(self.list@)
    }

    /// The empty collection.
    pub fn new() -> (r: Pairs)
        ensures
            r.wf(),
            r@ == Map::<Seq<char>, Seq<char>>::empty(),
            r.list@.len() == 0,
    {
        Pairs { list: Vec::new() }
    }

    /// Store a value under a key: an entry holding the key is overwritten,
    /// otherwise the pair is appended; the count grows only for a new key.
    pub fn insert(&mut self, k: String, v: String)
        requires
            old(self).wf(),
        ensures
            final(self).wf(),
            final(self)@ == old(self)@.insert(k@, v@),
            old(self)@.contains_key(k@) ==> final(self).list@.len() == old(self).list@.len(),
            !old(self)@.contains_key(k@) ==> final(self).list@.len() == old(self).list@.len() + 1,
    {
        let n = self.list.len();
        let mut i: usize = 0;
        while i < n
            invariant
                n == self.list@.len(),
                i <= n,
                *self == *old(self),
                old(self).wf(),
                forall|j: int| 0 <= j < i ==> (#[trigger] self.list@[j].key@) != k@,
            decreases n - i,
        {
            if self.list[i].key == k {
                let p = Pair { key: self.list[i].key.clone(), value: v };
                proof {
                    lemma_map_of_contains(self.list@, k@);
                    lemma_map_of_update(self.list@, i as int, p);
                }
                self.list.set(i, p);
                proof {
                    assert forall|a: int, b: int|
                        0 <= a < b < self.list@.len() implies (#[trigger] self.list@[a].key@) != (
                    #[trigger] self.list@[b].key@) by {
                        assert(self.list@[a].key@ == old(self).list@[a].key@);
                        assert(self.list@[b].key@ == old(self).list@[b].key@);
                        assert(old(self).list@[a].key@ != old(self).list@[b].key@);
                    }
                }
                return ;
            }
            i += 1;
        }
        proof {
            lemma_map_of_contains(self.list@, k@);
            assert(!old(self)@.contains_key(k@));
        }
        let ghost pre = self.list@;
        self.list.push(Pair { key: k, value: v });
        proof {
            assert(self.list@.drop_last() =~= pre);
            assert forall|a: int, b: int|
                0 <= a < b < self.list@.len() implies (#[trigger] self.list@[a].key@) != (
            #[trigger] self.list@[b].key@) by {
                if b < pre.len() {
                    assert(pre[a].key@ != pre[b].key@);
                } else {
                    assert(self.list@[b].key@ == k@);
                    assert(pre[a].key@ == self.list@[a].key@);
                    lemma_map_of_contains(pre, pre[a].key@);
                }
            }
        }
    }

    /// Look a key up; `Some` of its value exactly when the key is present.
    pub fn get(&self, k: &String) -> (r: Option<&String>)
        requires
            self.wf(),
        ensures
            match r {
                Some(v) => self@.contains_key(k@) && v@ == self@[k@],
                None => !self@.contains_key(k@),
            },
    {
        let n = self.list.len();
        let mut i: usize = 0;
        while i < n
            invariant
                n == self.list@.len(),
                i <= n,
                self.wf(),
                forall|j: int| 0 <= j < i ==> (#[trigger] self.list@[j].key@) != k@,
            decreases n - i,
        {
            if self.list[i].key == *k {
                proof {
                    lemma_map_of_index(self.list@, i as int);
                }
                return Some(&self.list[i].value);
            }
            i += 1;
        }
        proof {
            lemma_map_of_contains(self.list@, k@);
        }
        None
    }

    /// How many pairs are stored.
    pub fn len(&self) -> (r: usize)
        requires
            self.wf(),
        ensures
            r == self@.dom().len(),
            r == self.list@.len(),
    {
        proof {
            lemma_map_of_dom_len(self.list@);
        }
        self.list.len()
    }
}

} // verus!
