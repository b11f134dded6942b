//! Sets of names (ingredients, allergens, diets, tags, barcodes).
//!
//! A `NameSet` keeps its members in a list without repetition, in the order in
//! which they were first inserted. Its view is the mathematical set.

use crate::text::{clone_strings, views_of};
use vstd::prelude::*;

verus! {

/// A finite set of strings.
#[derive(Debug)]
pub struct NameSet {
    items: Vec<String>,
}

impl View for NameSet {
    type V = Set<Seq<char>>;

    open spec fn view(&self) -> Set<Seq<char>> {
        self.names().to_set()
    }
}

/// Whether no string occurs twice in `v`.
pub open spec fn distinct_names(v: Seq<String>) -> bool {
    views_of(v).no_duplicates()
}

/// The set of the strings in `v`.
pub open spec fn name_set_of(v: Seq<String>) -> Set<Seq<char>> {
    views_of(v).to_set()
}

/// `base` followed by those elements of `extra` that are not yet there, each
/// once, in the order of `extra`.
pub open spec fn with_new(base: Seq<Seq<char>>, extra: Seq<Seq<char>>) -> Seq<Seq<char>>
    decreases extra.len(),
{
    if extra.len() == 0 {
        base
    } else {
        let before = with_new(base, extra.drop_last());
        if before.contains(extra.last()) {
            before
        } else {
            before.push(extra.last())
        }
    }
}

/// `s` without the later occurrences of each element.
pub open spec fn first_occurrences(s: Seq<Seq<char>>) -> Seq<Seq<char>> {
    with_new(Seq::empty(), s)
}

/// `with_new(base, extra)` holds exactly the elements of `base` and of
/// `extra`. Where `base` has no element twice, it has none twice either.
pub proof fn lemma_with_new(base: Seq<Seq<char>>, extra: Seq<Seq<char>>)
    ensures
        with_new(base, extra).to_set() == base.to_set().union(extra.to_set()),
        base.no_duplicates() ==> with_new(base, extra).no_duplicates(),
        with_new(base, extra).len() <= base.len() + extra.len(),
    decreases extra.len(),
{
    if extra.len() > 0 {
        let rest = extra.drop_last();
        let last = extra.last();
        let before = with_new(base, rest);
        lemma_with_new(base, rest);
        assert(rest.push(last) =~= extra);
        lemma_seq_push_to_set(rest, last);
        if !before.contains(last) {
            lemma_seq_push_to_set(before, last);
            if base.no_duplicates() {
                assert forall|a: int, b: int|
                    0 <= a < before.push(last).len() && 0 <= b < before.push(last).len() && a
                        != b implies before.push(last)[a] != before.push(last)[b] by {
                }
            }
        }
    }
}

/// `first_occurrences(s)` holds exactly the elements of `s`, none of them
/// twice.
pub proof fn lemma_first_occurrences(s: Seq<Seq<char>>)
    ensures
        first_occurrences(s).no_duplicates(),
        first_occurrences(s).len() <= s.len(),
        forall|k: Seq<char>| first_occurrences(s).contains(k) <==> s.contains(k),
{
    lemma_with_new(Seq::empty(), s);
    assert forall|k: Seq<char>| first_occurrences(s).contains(k) <==> s.contains(k) by {
        assert(first_occurrences(s).to_set().contains(k) <==> s.to_set().contains(k));
    }
}

/// A list of strings holds `name` exactly if its set does.
pub proof fn lemma_name_set_contains(v: Seq<String>, name: Seq<char>)
    ensures
        name_set_of(v).contains(name) <==> exists|i: int| 0 <= i < v.len() && v[i]@ == name,
{
    let views = views_of(v);
    if exists|i: int| 0 <= i < v.len() && v[i]@ == name {
        let i = choose|i: int| 0 <= i < v.len() && v[i]@ == name;
        assert(views[i] == name);
    }
}

/// Appending an element to a sequence adds it to the sequence's set.
pub proof fn lemma_seq_push_to_set(views: Seq<Seq<char>>, name: Seq<char>)
    ensures
        views.push(name).to_set() == views.to_set().insert(name),
{
    assert forall|n: Seq<char>| views.push(name).to_set().contains(n) <==> views.to_set().insert(
        name,
    ).contains(n) by {
        if views.contains(n) {
            let i = choose|i: int| 0 <= i < views.len() && views[i] == n;
            assert(views.push(name)[i] == n);
        }
        if n == name {
            assert(views.push(name)[views.len() as int] == n);
        }
    }
}

/// Appending a string adds it to the set.
pub proof fn lemma_name_set_push(v: Seq<String>, s: String)
    ensures
        views_of(v.push(s)) == views_of(v).push(s@),
        name_set_of(v.push(s)) == name_set_of(v).insert(s@),
{
    assert(views_of(v.push(s)) =~= views_of(v).push(s@));
    lemma_seq_push_to_set(views_of(v), s@);
}

/// The empty list has the empty set.
pub proof fn lemma_name_set_empty()
    ensures
        name_set_of(Seq::<String>::empty()) == Set::<Seq<char>>::empty(),
        distinct_names(Seq::<String>::empty()),
{
}

impl Clone for NameSet {
    fn clone(&self) -> (copy: Self)
        ensures
            copy@ == self@,
            copy.names() == self.names(),
            copy.wf(),
    {
        proof {
            use_type_invariant(self);
        }
        NameSet { items: clone_strings(&self.items) }
    }
}

impl NameSet {
    /// The members in the order in which they were first inserted.
    pub closed spec fn names(&self) -> Seq<Seq<char>> {
        views_of(self.items@)
    }

    /// No member is listed twice.
    #[verifier::type_invariant]
    pub closed spec fn wf(&self) -> bool {
        distinct_names(self.items@)
    }

    /// The empty set.
    pub fn new() -> (s: Self)
        ensures
            s@ == Set::<Seq<char>>::empty(),
            s.names() == Seq::<Seq<char>>::empty(),
            s.wf(),
    {
        proof {
            lemma_name_set_empty();
        }
        NameSet { items: Vec::new() }
    }

    /// The number of members.
    pub fn len(&self) -> (n: usize)
        ensures
            n == self@.len(),
            n == self.names().len(),
    {
        proof {
            use_type_invariant(self);
            self.names().unique_seq_to_set();
        }
        self.items.len()
    }

    /// Whether the set has no member.
    pub fn is_empty(&self) -> (r: bool)
        ensures
            r <==> self@ == Set::<Seq<char>>::empty(),
            r <==> self.names().len() == 0,
    {
        proof {
            if self.items@.len() == 0 {
                assert(self@ =~= Set::<Seq<char>>::empty());
            } else {
                assert(self@.contains(self.names()[0]));
            }
        }
        self.items.len() == 0
    }

    /// Whether `name` is a member.
    pub fn contains(&self, name: &str) -> (r: bool)
        ensures
            r == self@.contains(name@),
    {
        let probe = String::from_str(name);
        let mut i: usize = 0;
        while i < self.items.len()
            invariant
                i <= self.items@.len(),
                probe@ == name@,
                forall|j: int| 0 <= j < i ==> self.items@[j]@ != name@,
            decreases self.items@.len() - i,
        {
            if self.items[i] == probe {
                proof {
                    lemma_name_set_contains(self.items@, name@);
                }
                return true;
            }
            i = i + 1;
        }
        proof {
            lemma_name_set_contains(self.items@, name@);
        }
        false
    }

    /// Adds `name`. Returns whether it was new.
    pub fn insert(&mut self, name: String) -> (added: bool)
        ensures
            final(self)@ == old(self)@.insert(name@),
            added == !old(self)@.contains(name@),
            added ==> final(self).names() == old(self).names().push(name@),
            !added ==> final(self).names() == old(self).names(),
            final(self).wf(),
    {
        proof {
            use_type_invariant(&*self);
        }
        if self.contains(name.as_str()) {
            false
        } else {
            proof {
                lemma_name_set_push(self.items@, name);
                let views = views_of(self.items@);
                assert forall|i: int, j: int|
                    0 <= i < views.push(name@).len() && 0 <= j < views.push(name@).len() && i
                        != j implies views.push(name@)[i] != views.push(name@)[j] by {
                }
            }
            let mut items: Vec<String> = Vec::new();
            std::mem::swap(&mut self.items, &mut items);
            items.push(name);
            self.items = items;
            true
        }
    }

    /// The set of the strings in `names`, in the order of their first
    /// occurrences.
    pub fn from_vec(names: Vec<String>) -> (s: Self)
        ensures
            s@ == name_set_of(names@),
            s.names() == first_occurrences(views_of(names@)),
            s.wf(),
    {
        let mut set = NameSet::new();
        set.extend_from(&names);
        set
    }

    /// The members as a list without repetition, in order of first insertion.
    pub fn to_vec(&self) -> (v: Vec<String>)
        ensures
            views_of(v@) == self.names(),
            name_set_of(v@) == self@,
            distinct_names(v@),
    {
        proof {
            use_type_invariant(self);
        }
        let mut v: Vec<String> = Vec::new();
        let mut i: usize = 0;
        while i < self.items.len()
            invariant
                i <= self.items@.len(),
                views_of(v@) =~= views_of(self.items@.take(i as int)),
            decreases self.items@.len() - i,
        {
            proof {
                lemma_name_set_push(self.items@.take(i as int), self.items@[i as int]);
                lemma_name_set_push(v@, self.items@[i as int]);
            }
            v.push(self.items[i].clone());
            i = i + 1;
        }
        assert(self.items@.take(self.items@.len() as int) =~= self.items@);
        v
    }

    /// Adds every member of `other` that is new, in the order of `other`.
    pub fn extend(&mut self, other: &NameSet)
        ensures
            final(self)@ == old(self)@.union(other@),
            final(self).names() == with_new(old(self).names(), other.names()),
            final(self).wf(),
    {
        self.extend_from(&other.items);
    }

    /// Adds every string in `names` that is new, in the order of `names`.
    pub fn extend_from(&mut self, names: &Vec<String>)
        ensures
            final(self)@ == old(self)@.union(name_set_of(names@)),
            final(self).names() == with_new(old(self).names(), views_of(names@)),
            final(self).wf(),
    {
        let mut i: usize = 0;
        proof {
            use_type_invariant(&*self);
            lemma_name_set_empty();
        }
        while i < names.len()
            invariant
                i <= names@.len(),
                self@ == old(self)@.union(name_set_of(names@.take(i as int))),
                self.names() == with_new(old(self).names(), views_of(names@.take(i as int))),
                self.wf(),
            decreases names@.len() - i,
        {
            proof {
                let seen = names@.take(i as int);
                let next = names@[i as int];
                assert(names@.take(i + 1) =~= seen.push(next));
                lemma_name_set_push(seen, next);
                assert(views_of(seen).push(next@).drop_last() =~= views_of(seen));
            }
            self.insert(names[i].clone());
            i = i + 1;
        }
        assert(names@.take(names@.len() as int) =~= names@);
    }
}

} // verus!
