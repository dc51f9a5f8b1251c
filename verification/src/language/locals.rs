//! The local variables of a builtin: template names mapped to generated names.

use vstd::prelude::*;

verus! {

/// The value stored for `k` in `entries`, the latest entry winning.
pub open spec fn assoc_lookup(entries: Seq<(Seq<char>, Seq<char>)>, k: Seq<char>) -> Option<Seq<char>>
    decreases entries.len(),
{
    if entries.len() == 0 {
        None
    } else if entries.last().0 == k {
        Some(entries.last().1)
    } else {
        assoc_lookup(entries.drop_last(), k)
    }
}

/// A map from local variable names to the names generated for them.
pub struct LocalVars {
    entries: Vec<(String, String)>,
}

/// The texts of a list of pairs of strings.
pub open spec fn pairs_model(v: Seq<(String, String)>) -> Seq<(Seq<char>, Seq<char>)> {
    v.map_values(|p: (String, String)| (p.0@, p.1@))
}

impl View for LocalVars {
    type V = Map<Seq<char>, Seq<char>>;

    closed spec fn view(&self) -> Map<Seq<char>, Seq<char>> {
        Map::new(
            |k: Seq<char>| assoc_lookup(pairs_model(self.entries@), k) is Some,
            |k: Seq<char>| assoc_lookup(pairs_model(self.entries@), k)->0,
        )
    }
}

impl LocalVars {
    /// The empty map.
    pub fn new() -> (r: LocalVars)
        ensures
            r@ == Map::<Seq<char>, Seq<char>>::empty(),
    {
        let r = LocalVars { entries: Vec::new() };
        assert(pairs_model(r.entries@) =~= Seq::<(Seq<char>, Seq<char>)>::empty());
        assert(r@ =~= Map::<Seq<char>, Seq<char>>::empty());
        r
    }

    /// Maps `k` to `v`, replacing what `k` was mapped to.
    pub fn insert(&mut self, k: String, v: String)
        ensures
            final(self)@ == old(self)@.insert(k@, v@),
    {
        let ghost old_entries = pairs_model(self.entries@);
        let ghost kv = (k@, v@);
        self.entries.push((k, v));
        assert(pairs_model(self.entries@) =~= old_entries.push(kv));
        assert(pairs_model(self.entries@).drop_last() == old_entries);
        assert(self@ =~= old(self)@.insert(kv.0, kv.1));
    }

    /// What `k` is mapped to.
    pub fn get(&self, k: &String) -> (r: Option<&String>)
        ensures
            self@.contains_key(k@) ==> r is Some && r->0@ == self@[k@],
            !self@.contains_key(k@) ==> r is None,
    {
        let ghost m = pairs_model(self.entries@);
        let mut i: usize = self.entries.len();
        assert(m.subrange(0, i as int) == m);
        while i > 0
            invariant
                i <= self.entries@.len(),
                m == pairs_model(self.entries@),
                assoc_lookup(m, k@) == assoc_lookup(m.subrange(0, i as int), k@),
            decreases i,
        {
            let ghost pre = m.subrange(0, i as int);
            assert(pre.drop_last() == m.subrange(0, i - 1));
            assert(pre.last() == (self.entries@[i - 1].0@, self.entries@[i - 1].1@));
            if self.entries[i - 1].0 == *k {
                return Some(&self.entries[i - 1].1);
            }
            i = i - 1;
        }
        None
    }

    /// A copy of this map.
    pub fn duplicate(&self) -> (r: LocalVars)
        ensures
            r@ == self@,
    {
        let mut entries: Vec<(String, String)> = Vec::new();
        let mut i: usize = 0;
        while i < self.entries.len()
            invariant
                i <= self.entries@.len(),
                pairs_model(entries@) == pairs_model(self.entries@.subrange(0, i as int)),
            decreases self.entries@.len() - i,
        {
            let p = (self.entries[i].0.clone(), self.entries[i].1.clone());
            let ghost before = entries@;
            assert(p.0@ == self.entries@[i as int].0@ && p.1@ == self.entries@[i as int].1@);
            entries.push(p);
            assert(entries@ == before.push(p));
            assert(self.entries@.subrange(0, i + 1) == self.entries@.subrange(0, i as int).push(self.entries@[i as int]));
            assert(pairs_model(entries@) =~= pairs_model(before).push((p.0@, p.1@)));
            assert(pairs_model(self.entries@.subrange(0, i + 1)) =~= pairs_model(self.entries@.subrange(0, i as int)).push((self.entries@[i as int].0@, self.entries@[i as int].1@)));
            assert(pairs_model(entries@) =~= pairs_model(self.entries@.subrange(0, i + 1)));
            i = i + 1;
        }
        assert(self.entries@.subrange(0, self.entries@.len() as int) == self.entries@);
        let r = LocalVars { entries };
        assert(r@ =~= self@);
        r
    }
}

} // verus!
