//! The alias tracker: a per-handler mapping from a local binding name to the
//! name of the request field the binding was derived from.
//!
//! The map is scoped to exactly one handler and is never shared or merged
//! across handlers.  Re-declaring a name overwrites its earlier entry, so
//! each name maps to exactly one field at any instant.  Lookup order never
//! influences anything the analysis reports: the map is only read by key.

use vstd::prelude::*;

verus! {

use crate::utils::text_eq;

/// The mapping underneath an entry list: later entries win.
pub open spec fn spec_entries_map(s: Seq<(String, String)>) -> Map<Seq<char>, Seq<char>>
    decreases s.len(),
{
    if s.len() == 0 {
        Map::empty()
    } else {
        spec_entries_map(s.drop_last()).insert(s.last().0@, s.last().1@)
    }
}

/// No two entries bind the same name.
pub open spec fn spec_unique_keys(s: Seq<(String, String)>) -> bool {
    forall|i: int, j: int| 0 <= i < j < s.len() ==> s[i].0@ != s[j].0@
}

proof fn lemma_entries_map_contains(s: Seq<(String, String)>, k: Seq<char>)
    ensures
        spec_entries_map(s).contains_key(k) <==> exists|i: int|
            0 <= i < s.len() && s[i].0@ == k,
    decreases s.len(),
{
    if s.len() > 0 {
        lemma_entries_map_contains(s.drop_last(), k);
        if spec_entries_map(s).contains_key(k) && s.last().0@ != k {
            let i = choose|i: int| 0 <= i < s.drop_last().len() && s.drop_last()[i].0@ == k;
            assert(s[i].0@ == k);
        }
        if exists|i: int| 0 <= i < s.len() && s[i].0@ == k {
            let i = choose|i: int| 0 <= i < s.len() && s[i].0@ == k;
            if i < s.len() - 1 {
                assert(s.drop_last()[i].0@ == k);
            }
        }
    }
}

proof fn lemma_entries_map_at(s: Seq<(String, String)>, k: Seq<char>, i: int)
    requires
        0 <= i < s.len(),
        s[i].0@ == k,
        forall|j: int| i < j < s.len() ==> s[j].0@ != k,
    ensures
        spec_entries_map(s).contains_key(k),
        spec_entries_map(s)[k] == s[i].1@,
    decreases s.len(),
{
    if i < s.len() - 1 {
        assert(s.drop_last()[i] == s[i]);
        lemma_entries_map_at(s.drop_last(), k, i);
    }
}

proof fn lemma_entries_map_len(s: Seq<(String, String)>)
    requires
        spec_unique_keys(s),
    ensures
        spec_entries_map(s).dom().finite(),
        spec_entries_map(s).dom().len() == s.len(),
    decreases s.len(),
{
    if s.len() > 0 {
        let d = s.drop_last();
        assert(spec_unique_keys(d)) by {
            assert(forall|i: int, j: int|
                0 <= i < j < d.len() ==> d[i].0@ == s[i].0@ && d[j].0@ == s[j].0@);
        }
        lemma_entries_map_len(d);
        lemma_entries_map_contains(d, s.last().0@);
        assert forall|i: int| 0 <= i < d.len() implies d[i].0@ != s.last().0@ by {
            assert(s[i].0@ != s[s.len() - 1].0@);
        }
        assert(!spec_entries_map(d).contains_key(s.last().0@));
    }
}

proof fn lemma_entries_map_update(s: Seq<(String, String)>, i: int, name: String, field: String)
    requires
        spec_unique_keys(s),
        0 <= i < s.len(),
        s[i].0@ == name@,
    ensures
        spec_entries_map(s.update(i, (name, field))) == spec_entries_map(s).insert(name@, field@),
    decreases s.len(),
{
    let t = s.update(i, (name, field));
    if i == s.len() - 1 {
        assert(t.drop_last() =~= s.drop_last());
        assert(spec_entries_map(t) =~= spec_entries_map(s).insert(name@, field@));
    } else {
        let d = s.drop_last();
        assert(spec_unique_keys(d)) by {
            assert(forall|a: int, b: int|
                0 <= a < b < d.len() ==> d[a].0@ == s[a].0@ && d[b].0@ == s[b].0@);
        }
        assert(d[i] == s[i]);
        lemma_entries_map_update(d, i, name, field);
        assert(t.drop_last() =~= d.update(i, (name, field)));
        assert(t.last() == s.last());
        // The final entry's key differs from `name`, so the two inserts commute.
        assert(s.last().0@ != name@) by {
            assert(s[i].0@ != s[s.len() - 1].0@);
        }
        assert(spec_entries_map(t) =~= spec_entries_map(s).insert(name@, field@));
    }
}

/// Mapping from a local binding name to the request-field name the binding
/// was derived from, scoped to one handler.
pub struct AliasMap {
    entries: Vec<(String, String)>,
}

impl View for AliasMap {
    type V = Map<Seq<char>, Seq<char>>;

    closed spec fn view(&self) -> Map<Seq<char>, Seq<char>> {
        spec_entries_map(self.entries@)
    }
}

impl AliasMap {
    #[verifier::type_invariant]
    spec fn wf(self) -> bool {
        spec_unique_keys(self.entries@)
    }

    /// An empty alias map, as each freshly opened handler scope starts with.
    pub fn new() -> (r: AliasMap)
        ensures
            r@ == Map::<Seq<char>, Seq<char>>::empty(),
    {
        AliasMap { entries: Vec::new() }
    }

    /// How many names are currently bound.
    pub fn len(&self) -> (r: usize)
        ensures
            self@.dom().finite(),
            r == self@.dom().len(),
    {
        proof {
            use_type_invariant(self);
            lemma_entries_map_len(self.entries@);
        }
        self.entries.len()
    }

    /// Binds `name` to `field`; a name already bound is overwritten.
    pub fn insert(&mut self, name: String, field: String)
        ensures
            final(self)@ == old(self)@.insert(name@, field@),
    {
        proof {
            use_type_invariant(&*self);
        }
        let mut entries: Vec<(String, String)> = Vec::new();
        std::mem::swap(&mut entries, &mut self.entries);
        let ghost s = entries@;
        let n = entries.len();
        let mut i: usize = 0;
        while i < n
            invariant
                n == entries.len(),
                i <= n,
                entries@ == s,
                s == old(self).entries@,
                spec_unique_keys(s),
                forall|j: int| 0 <= j < i ==> s[j].0@ != name@,
            decreases n - i,
        {
            if text_eq(entries[i].0.as_str(), name.as_str()) {
                proof {
                    lemma_entries_map_update(s, i as int, name, field);
                    let t = s.update(i as int, (name, field));
                    assert forall|a: int, b: int| 0 <= a < b < t.len() implies t[a].0@
                        != t[b].0@ by {
                        assert(s[a].0@ != s[b].0@);
                    }
                }
                entries.set(i, (name, field));
                self.entries = entries;
                return ;
            }
            i = i + 1;
        }
        proof {
            let t = s.push((name, field));
            assert(t.drop_last() =~= s);
            assert forall|a: int, b: int| 0 <= a < b < t.len() implies t[a].0@ != t[b].0@ by {
                if b < s.len() {
                    assert(s[a].0@ != s[b].0@);
                } else {
                    assert(s[a].0@ != name@);
                }
            }
        }
        entries.push((name, field));
        self.entries = entries;
    }

    /// Looks up the field that `name` is an alias of, if any.
    pub fn get(&self, name: &str) -> (r: Option<&String>)
        ensures
            match r {
                Option::Some(field) => self@.contains_key(name@) && field@ == self@[name@],
                Option::None => !self@.contains_key(name@),
            },
    {
        proof {
            use_type_invariant(self);
        }
        let ghost s = self.entries@;
        let n = self.entries.len();
        let mut i: usize = 0;
        while i < n
            invariant
                n == self.entries.len(),
                s == self.entries@,
                i <= n,
                spec_unique_keys(s),
                forall|j: int| 0 <= j < i ==> s[j].0@ != name@,
            decreases n - i,
        {
            if text_eq(self.entries[i].0.as_str(), name) {
                proof {
                    lemma_entries_map_at(s, name@, i as int);
                }
                return Option::Some(&self.entries[i].1);
            }
            i = i + 1;
        }
        proof {
            lemma_entries_map_contains(s, name@);
        }
        Option::None
    }
}

} // verus!
