//! Ordered collections of the installer state: a set of texts kept in
//! ascending order (the order in which a `BTreeSet<String>` is walked),
//! and a map from texts to such sets.
use vstd::prelude::*;
use crate::text::{chars_less, lemma_less_irreflexive, lemma_less_total, lemma_less_transitive, owned, str_eq, string_less};

verus! {

/// Every element sorts strictly before every later one.
pub open spec fn sorted_strict(s: Seq<Seq<char>>) -> bool {
    forall|i: int, j: int| 0 <= i < j < s.len() ==> chars_less(s[i], s[j])
}

/// Two ascending sequences with the same members are the same sequence.
pub proof fn lemma_sorted_unique(a: Seq<Seq<char>>, b: Seq<Seq<char>>)
    requires
        sorted_strict(a),
        sorted_strict(b),
        forall|x: Seq<char>| a.contains(x) <==> b.contains(x),
    ensures
        a == b,
    decreases a.len(),
{
    if a.len() == 0 {
        if b.len() > 0 {
            assert(b.contains(b[0]));
        }
        assert(a =~= b);
    } else if b.len() == 0 {
        assert(a.contains(a[0]));
    } else {
        // the first elements are the least members of both
        assert(b.contains(a[0]));
        assert(a.contains(b[0]));
        let i = choose|i: int| 0 <= i < b.len() && b[i] == a[0];
        let j = choose|j: int| 0 <= j < a.len() && a[j] == b[0];
        if i > 0 {
            assert(chars_less(b[0], b[i]));
            if j > 0 {
                assert(chars_less(a[0], a[j]));
                lemma_less_total(a[0], b[0]);
            } else {
                lemma_less_irreflexive(a[0]);
            }
        }
        assert(a[0] == b[0]) by {
            if i > 0 {
                if j > 0 {
                    lemma_less_total(a[0], b[0]);
                }
            }
        }
        let a1 = a.drop_first();
        let b1 = b.drop_first();
        assert forall|x: Seq<char>| a1.contains(x) <==> b1.contains(x) by {
            if a1.contains(x) {
                let k = choose|k: int| 0 <= k < a1.len() && a1[k] == x;
                assert(a[k + 1] == x);
                assert(chars_less(a[0], x));
                lemma_less_irreflexive(x);
                assert(b.contains(x));
                let m = choose|m: int| 0 <= m < b.len() && b[m] == x;
                assert(m != 0);
                assert(b1[m - 1] == x);
            }
            if b1.contains(x) {
                let k = choose|k: int| 0 <= k < b1.len() && b1[k] == x;
                assert(b[k + 1] == x);
                assert(chars_less(b[0], x));
                lemma_less_irreflexive(x);
                assert(a.contains(x));
                let m = choose|m: int| 0 <= m < a.len() && a[m] == x;
                assert(m != 0);
                assert(a1[m - 1] == x);
            }
        }
        lemma_sorted_unique(a1, b1);
        assert(a =~= seq![a[0]] + a1);
        assert(b =~= seq![b[0]] + b1);
    }
}

/// Membership in a sequence grown by one element.
pub proof fn lemma_push_contains(seen: Seq<Seq<char>>, x: Seq<char>)
    ensures
        forall|p: Seq<char>| #[trigger] seen.push(x).contains(p) <==> (seen.contains(p) || p == x),
{
    let next = seen.push(x);
    assert forall|p: Seq<char>| #[trigger] next.contains(p) <==> (seen.contains(p) || p == x) by {
        if next.contains(p) {
            let j = choose|j: int| 0 <= j < next.len() && next[j] == p;
            if j < seen.len() {
                assert(seen[j] == p);
            }
        }
        if seen.contains(p) {
            let j = choose|j: int| 0 <= j < seen.len() && seen[j] == p;
            assert(next[j] == p);
        }
        if p == x {
            assert(next[seen.len() as int] == p);
        }
    }
}

/// A set of texts, kept in ascending order without repetition.
pub struct StringSet {
    items: Vec<String>,
}

impl View for StringSet {
    type V = Seq<Seq<char>>;

    closed spec fn view(&self) -> Seq<Seq<char>> {
        self.items.deep_view()
    }
}

impl StringSet {
    #[verifier::type_invariant]
    spec fn ordered(self) -> bool {
        sorted_strict(self.items.deep_view())
    }

    /// The empty set.
    pub fn new() -> (s: Self)
        ensures
            s@ == Seq::<Seq<char>>::empty(),
    {
        let s = StringSet { items: Vec::new() };
        assert(s.items.deep_view() =~= Seq::<Seq<char>>::empty());
        s
    }

    /// The members in ascending order.
    pub fn items(&self) -> (r: &Vec<String>)
        ensures
            r.deep_view() == self@,
            sorted_strict(self@),
    {
        proof {
            use_type_invariant(self);
        }
        &self.items
    }

    /// The members in ascending order, taking the set apart.
    pub fn into_items(self) -> (r: Vec<String>)
        ensures
            r.deep_view() == self@,
            sorted_strict(r.deep_view()),
    {
        proof {
            use_type_invariant(&self);
        }
        self.items
    }

    /// The number of members.
    pub fn len(&self) -> (r: usize)
        ensures
            r == self@.len(),
            sorted_strict(self@),
    {
        proof {
            use_type_invariant(self);
        }
        self.items.len()
    }

    /// The set has no member.
    pub fn is_empty(&self) -> (r: bool)
        ensures
            r == (self@.len() == 0),
            sorted_strict(self@),
    {
        proof {
            use_type_invariant(self);
        }
        self.items.len() == 0
    }

    /// `x` is a member.
    pub fn contains(&self, x: &str) -> (r: bool)
        ensures
            r == self@.contains(x@),
            sorted_strict(self@),
    {
        proof {
            use_type_invariant(self);
        }
        let mut i: usize = 0;
        while i < self.items.len()
            invariant
                i <= self.items.len(),
                sorted_strict(self.items.deep_view()),
                forall|k: int| 0 <= k < i ==> self.items.deep_view()[k] != x@,
            decreases self.items.len() - i,
        {
            if str_eq(self.items[i].as_str(), x) {
                assert(self.items.deep_view()[i as int] == x@);
                return true;
            }
            i = i + 1;
        }
        false
    }

    /// The least member, if any (`iter().next()`).
    pub fn first(&self) -> (r: Option<String>)
        ensures
            match r {
                Some(x) => self@.len() > 0 && x@ == self@[0],
                None => self@.len() == 0,
            },
            sorted_strict(self@),
    {
        proof {
            use_type_invariant(self);
        }
        if self.items.len() == 0 {
            None
        } else {
            Some(self.items[0].clone())
        }
    }

    /// Adds `x` (no change when it is already a member).
    pub fn insert(&mut self, x: String)
        ensures
            forall|y: Seq<char>| final(self)@.contains(y) <==> (old(self)@.contains(y) || y == x@),
            sorted_strict(final(self)@),
            old(self)@.contains(x@) ==> final(self)@ == old(self)@,
    {
        proof {
            use_type_invariant(&*self);
        }
        let mut v: Vec<String> = Vec::new();
        std::mem::swap(&mut v, &mut self.items);
        let ghost old_dv = v.deep_view();
        assert(old_dv == old(self)@);
        let mut pos: usize = 0;
        while pos < v.len() && string_less(v[pos].as_str(), x.as_str())
            invariant
                pos <= v.len(),
                v.deep_view() == old_dv,
                forall|k: int| 0 <= k < pos ==> chars_less(old_dv[k], x@),
            decreases v.len() - pos,
        {
            pos = pos + 1;
        }
        if pos < v.len() && str_eq(v[pos].as_str(), x.as_str()) {
            assert(old_dv.contains(x@)) by {
                assert(old_dv[pos as int] == x@);
            }
            self.items = v;
            return;
        }
        proof {
            assert forall|k: int| pos <= k < old_dv.len() implies chars_less(x@, old_dv[k]) by {
                lemma_less_total(old_dv[pos as int], x@);
                if k > pos {
                    lemma_less_transitive(x@, old_dv[pos as int], old_dv[k]);
                }
            }
        }
        v.insert(pos, x);
        let ghost new_dv = v.deep_view();
        assert(new_dv =~= old_dv.insert(pos as int, x@));
        assert(sorted_strict(new_dv)) by {
            assert forall|i: int, j: int| 0 <= i < j < new_dv.len() implies chars_less(
                new_dv[i],
                new_dv[j],
            ) by {
                if j < pos {
                } else if i < pos && j == pos {
                } else if i < pos && j > pos {
                    lemma_less_transitive(old_dv[i], x@, old_dv[j - 1]);
                } else if i == pos {
                } else {
                }
            }
        }
        assert forall|y: Seq<char>| new_dv.contains(y) <==> (old_dv.contains(y) || y == x@) by {
            if new_dv.contains(y) {
                let k = choose|k: int| 0 <= k < new_dv.len() && new_dv[k] == y;
                if k < pos {
                    assert(old_dv[k] == y);
                } else if k > pos {
                    assert(old_dv[k - 1] == y);
                }
            }
            if old_dv.contains(y) {
                let k = choose|k: int| 0 <= k < old_dv.len() && old_dv[k] == y;
                if k < pos {
                    assert(new_dv[k] == y);
                } else {
                    assert(new_dv[k + 1] == y);
                }
            }
            if y == x@ {
                assert(new_dv[pos as int] == y);
            }
        }
        assert(!old_dv.contains(x@)) by {
            if old_dv.contains(x@) {
                let k = choose|k: int| 0 <= k < old_dv.len() && old_dv[k] == x@;
                lemma_less_irreflexive(x@);
                if k >= pos {
                    assert(chars_less(x@, old_dv[k]));
                }
            }
        }
        self.items = v;
    }

    /// Removes `x` (no change when it is not a member).
    pub fn remove(&mut self, x: &str)
        ensures
            forall|y: Seq<char>| final(self)@.contains(y) <==> (old(self)@.contains(y) && y != x@),
            sorted_strict(final(self)@),
            !old(self)@.contains(x@) ==> final(self)@ == old(self)@,
    {
        proof {
            use_type_invariant(&*self);
        }
        let mut v: Vec<String> = Vec::new();
        std::mem::swap(&mut v, &mut self.items);
        let ghost old_dv = v.deep_view();
        let mut i: usize = 0;
        while i < v.len()
            invariant
                i <= v.len(),
                v.deep_view() == old_dv,
                old_dv == old(self)@,
                sorted_strict(old_dv),
                forall|k: int| 0 <= k < i ==> old_dv[k] != x@,
            decreases v.len() - i,
        {
            if str_eq(v[i].as_str(), x) {
                let ghost idx = i as int;
                assert(old_dv[idx] == x@);
                let _ = v.remove(i);
                let ghost new_dv = v.deep_view();
                assert(new_dv =~= old_dv.remove(idx));
                assert forall|y: Seq<char>| new_dv.contains(y) <==> (old_dv.contains(y) && y
                    != x@) by {
                    if new_dv.contains(y) {
                        let k = choose|k: int| 0 <= k < new_dv.len() && new_dv[k] == y;
                        if k < idx {
                            assert(old_dv[k] == y);
                            assert(chars_less(old_dv[k], old_dv[idx]));
                            lemma_less_irreflexive(y);
                        } else {
                            assert(old_dv[k + 1] == y);
                            assert(chars_less(old_dv[idx], old_dv[k + 1]));
                            lemma_less_irreflexive(y);
                        }
                    }
                    if old_dv.contains(y) && y != x@ {
                        let k = choose|k: int| 0 <= k < old_dv.len() && old_dv[k] == y;
                        if k < idx {
                            assert(new_dv[k] == y);
                        } else {
                            assert(new_dv[k - 1] == y);
                        }
                    }
                }
                self.items = v;
                return;
            }
            i = i + 1;
        }
        self.items = v;
    }

    /// Removes `x` when it is a member, else adds it.
    pub fn toggle(&mut self, x: &str)
        ensures
            members(final(self)@) == toggled(members(old(self)@), x@),
            sorted_strict(final(self)@),
    {
        if self.contains(x) {
            self.remove(x);
            assert(members(self@) =~= members(old(self)@).remove(x@));
        } else {
            self.insert(owned(x));
            assert(members(self@) =~= members(old(self)@).insert(x@));
        }
    }

    /// Every item of `items` is a member.
    pub fn contains_all(&self, items: &Vec<String>) -> (r: bool)
        ensures
            r == items.deep_view().to_set().subset_of(members(self@)),
    {
        let ghost all = items.deep_view();
        let mut i: usize = 0;
        while i < items.len()
            invariant
                i <= items@.len(),
                all == items.deep_view(),
                forall|k: int| 0 <= k < i ==> self@.contains(#[trigger] all[k]),
            decreases items@.len() - i,
        {
            if !self.contains(items[i].as_str()) {
                assert(!members(self@).contains(all[i as int]));
                assert(all.to_set().contains(all[i as int]));
                return false;
            }
            i = i + 1;
        }
        assert forall|x: Seq<char>| all.to_set().contains(x) implies members(self@).contains(x) by {
            let k = choose|k: int| 0 <= k < all.len() && all[k] == x;
            assert(self@.contains(all[k]));
        }
        true
    }

    /// Adds every item of `items`.
    pub fn insert_all(&mut self, items: &Vec<String>)
        ensures
            members(final(self)@) == members(old(self)@).union(items.deep_view().to_set()),
    {
        let ghost start = members(self@);
        let ghost all = items.deep_view();
        let mut i: usize = 0;
        while i < items.len()
            invariant
                i <= items@.len(),
                all == items.deep_view(),
                members(self@) == start.union(all.take(i as int).to_set()),
            decreases items@.len() - i,
        {
            let ghost before = self@;
            let x = items[i].clone();
            assert(x@ == all[i as int]);
            self.insert(x);
            proof {
                assert(all.take(i + 1) =~= all.take(i as int).push(all[i as int]));
                lemma_push_contains(all.take(i as int), all[i as int]);
                assert forall|y: Seq<char>| members(self@).contains(y) <==> start.union(all.take(i + 1).to_set()).contains(y) by {
                    assert(self@.contains(y) <==> (before.contains(y) || y == all[i as int]));
                    assert(before.to_set().contains(y) <==> start.union(all.take(i as int).to_set()).contains(y));
                    assert(all.take(i as int).push(all[i as int]).contains(y) <==> (all.take(i as int).contains(y) || y == all[i as int]));
                }
                assert(members(self@) =~= start.union(all.take(i + 1).to_set()));
            }
            i = i + 1;
        }
        assert(all.take(items@.len() as int) =~= all);
    }

    /// Removes every item of `items`.
    pub fn remove_all(&mut self, items: &Vec<String>)
        ensures
            members(final(self)@) == members(old(self)@).difference(items.deep_view().to_set()),
    {
        let ghost start = members(self@);
        let ghost all = items.deep_view();
        let mut i: usize = 0;
        while i < items.len()
            invariant
                i <= items@.len(),
                all == items.deep_view(),
                members(self@) == start.difference(all.take(i as int).to_set()),
            decreases items@.len() - i,
        {
            let ghost before = self@;
            assert(items[i as int]@ == all[i as int]);
            self.remove(items[i].as_str());
            proof {
                assert(all.take(i + 1) =~= all.take(i as int).push(all[i as int]));
                lemma_push_contains(all.take(i as int), all[i as int]);
                assert forall|y: Seq<char>| members(self@).contains(y) <==> start.difference(all.take(i + 1).to_set()).contains(y) by {
                    assert(self@.contains(y) <==> (before.contains(y) && y != all[i as int]));
                    assert(before.to_set().contains(y) <==> start.difference(all.take(i as int).to_set()).contains(y));
                    assert(all.take(i as int).push(all[i as int]).contains(y) <==> (all.take(i as int).contains(y) || y == all[i as int]));
                }
                assert(members(self@) =~= start.difference(all.take(i + 1).to_set()));
            }
            i = i + 1;
        }
        assert(all.take(items@.len() as int) =~= all);
    }

    /// The set of the given texts.
    pub fn from_strs(items: &[&str]) -> (s: Self)
        ensures
            members(s@) == Seq::new(items@.len(), |i: int| items@[i]@).to_set(),
            sorted_strict(s@),
    {
        let ghost all = Seq::new(items@.len(), |i: int| items@[i]@);
        let mut s = StringSet::new();
        let mut i: usize = 0;
        while i < items.len()
            invariant
                i <= items@.len(),
                all == Seq::new(items@.len(), |i: int| items@[i]@),
                members(s@) == all.take(i as int).to_set(),
            decreases items@.len() - i,
        {
            let item: &str = items[i];
            let ghost before = s@;
            s.insert(owned(item));
            proof {
                assert(all[i as int] == item@);
                assert(all.take(i + 1) =~= all.take(i as int).push(all[i as int]));
                lemma_push_contains(all.take(i as int), all[i as int]);
                assert forall|y: Seq<char>| s@.contains(y) <==> all.take(i + 1).contains(y) by {
                    assert(before.to_set().contains(y) <==> all.take(i as int).to_set().contains(y));
                    assert(all.take(i as int).push(all[i as int]).contains(y) <==> (all.take(i as int).contains(y) || y == all[i as int]));
                }
                assert(members(s@) =~= all.take(i + 1).to_set());
            }
            i = i + 1;
        }
        assert(all.take(items@.len() as int) =~= all);
        proof {
            use_type_invariant(&s);
        }
        s
    }

    /// Removes every member.
    pub fn clear(&mut self)
        ensures
            final(self)@ == Seq::<Seq<char>>::empty(),
    {
        self.items = Vec::new();
        assert(self.items.deep_view() =~= Seq::<Seq<char>>::empty());
    }
}

impl Clone for StringSet {
    fn clone(&self) -> (r: Self)
        ensures
            r@ == self@,
    {
        proof {
            use_type_invariant(self);
        }
        let v = self.items.clone();
        assert(v.deep_view() =~= self.items.deep_view());
        StringSet { items: v }
    }
}


/// No two entries share a key.
pub open spec fn keys_unique(e: Seq<(String, StringSet)>) -> bool {
    forall|i: int, j: int| 0 <= i < j < e.len() ==> e[i].0@ != e[j].0@
}

/// Some entry has key `k`.
pub open spec fn has_key(e: Seq<(String, StringSet)>, k: Seq<char>) -> bool {
    exists|i: int| 0 <= i < e.len() && e[i].0@ == k
}

/// The map that a list of entries stands for.
pub open spec fn map_of(e: Seq<(String, StringSet)>) -> Map<Seq<char>, Seq<Seq<char>>> {
    Map::new(
        |k: Seq<char>| has_key(e, k),
        |k: Seq<char>| e[choose|i: int| 0 <= i < e.len() && e[i].0@ == k].1@,
    )
}

proof fn lemma_map_of_at(e: Seq<(String, StringSet)>, i: int)
    requires
        keys_unique(e),
        0 <= i < e.len(),
    ensures
        map_of(e).contains_key(e[i].0@),
        map_of(e)[e[i].0@] == e[i].1@,
{
    let k = e[i].0@;
    assert(has_key(e, k));
    let j = choose|j: int| 0 <= j < e.len() && e[j].0@ == k;
    if j != i {
        if j < i {
            assert(e[j].0@ != e[i].0@);
        } else {
            assert(e[i].0@ != e[j].0@);
        }
    }
}

/// A map from texts to text sets (a `BTreeMap<String, BTreeSet<String>>`).
pub struct StringSetMap {
    entries: Vec<(String, StringSet)>,
}

impl View for StringSetMap {
    type V = Map<Seq<char>, Seq<Seq<char>>>;

    closed spec fn view(&self) -> Map<Seq<char>, Seq<Seq<char>>> {
        map_of(self.entries@)
    }
}

impl StringSetMap {
    #[verifier::type_invariant]
    spec fn unique(self) -> bool {
        keys_unique(self.entries@)
    }

    /// The empty map.
    pub fn new() -> (m: Self)
        ensures
            m@ == Map::<Seq<char>, Seq<Seq<char>>>::empty(),
    {
        let m = StringSetMap { entries: Vec::new() };
        assert(m@ =~= Map::<Seq<char>, Seq<Seq<char>>>::empty());
        m
    }

    /// The map has no entry.
    pub fn is_empty(&self) -> (r: bool)
        ensures
            r == (self@.dom() == Set::<Seq<char>>::empty()),
    {
        proof {
            use_type_invariant(self);
        }
        if self.entries.len() == 0 {
            assert(self@.dom() =~= Set::<Seq<char>>::empty());
            true
        } else {
            proof {
                lemma_map_of_at(self.entries@, 0);
                assert(self@.dom().contains(self.entries@[0].0@));
            }
            false
        }
    }

    fn find(&self, k: &str) -> (r: Option<usize>)
        ensures
            match r {
                Some(i) => i < self.entries@.len() && self.entries@[i as int].0@ == k@,
                None => !has_key(self.entries@, k@),
            },
    {
        let mut i: usize = 0;
        while i < self.entries.len()
            invariant
                i <= self.entries.len(),
                forall|j: int| 0 <= j < i ==> self.entries@[j].0@ != k@,
            decreases self.entries.len() - i,
        {
            if str_eq(self.entries[i].0.as_str(), k) {
                return Some(i);
            }
            i = i + 1;
        }
        None
    }

    /// `k` has an entry.
    pub fn contains_key(&self, k: &str) -> (r: bool)
        ensures
            r == self@.contains_key(k@),
    {
        match self.find(k) {
            Some(_) => true,
            None => false,
        }
    }

    /// The set stored under `k`, if any.
    pub fn get(&self, k: &str) -> (r: Option<&StringSet>)
        ensures
            match r {
                Some(v) => self@.contains_key(k@) && v@ == self@[k@],
                None => !self@.contains_key(k@),
            },
    {
        proof {
            use_type_invariant(self);
        }
        match self.find(k) {
            Some(i) => {
                proof {
                    lemma_map_of_at(self.entries@, i as int);
                }
                Some(&self.entries[i].1)
            },
            None => None,
        }
    }

    /// Stores `v` under `k`, replacing what was there.
    pub fn insert(&mut self, k: String, v: StringSet)
        ensures
            final(self)@ == old(self)@.insert(k@, v@),
    {
        proof {
            use_type_invariant(&*self);
        }
        let mut e: Vec<(String, StringSet)> = Vec::new();
        std::mem::swap(&mut e, &mut self.entries);
        let ghost old_e = e@;
        assert(map_of(old_e) == old(self)@);
        let ghost kv = k@;
        let ghost vv = v@;
        let found = self.find_in(&e, k.as_str());
        match found {
            Some(i) => {
                e.set(i, (k, v));
                let ghost new_e = e@;
                assert(new_e =~= old_e.update(i as int, new_e[i as int]));
                assert(keys_unique(new_e)) by {
                    assert forall|a: int, b: int| 0 <= a < b < new_e.len() implies new_e[a].0@
                        != new_e[b].0@ by {
                        if a == i {
                            assert(old_e[a].0@ == kv);
                        } else if b == i {
                            assert(old_e[b].0@ == kv);
                        }
                    }
                }
                assert(map_of(new_e) =~= map_of(old_e).insert(kv, vv)) by {
                    assert forall|q: Seq<char>| #[trigger]
                        map_of(new_e).contains_key(q) <==> map_of(old_e).insert(
                            kv,
                            vv,
                        ).contains_key(q) by {
                        if has_key(new_e, q) {
                            let j = choose|j: int| 0 <= j < new_e.len() && new_e[j].0@ == q;
                            if j != i {
                                assert(old_e[j].0@ == q);
                            }
                        }
                        if has_key(old_e, q) {
                            let j = choose|j: int| 0 <= j < old_e.len() && old_e[j].0@ == q;
                            if j != i {
                                assert(new_e[j].0@ == q);
                            } else {
                                assert(new_e[j].0@ == q);
                            }
                        }
                        if q == kv {
                            assert(new_e[i as int].0@ == q);
                        }
                    }
                    assert forall|q: Seq<char>| #[trigger]
                        map_of(new_e).contains_key(q) implies map_of(new_e)[q] == map_of(
                        old_e,
                    ).insert(kv, vv)[q] by {
                        let j = choose|j: int| 0 <= j < new_e.len() && new_e[j].0@ == q;
                        lemma_map_of_at(new_e, j);
                        if j != i {
                            assert(old_e[j] == new_e[j]);
                            lemma_map_of_at(old_e, j);
                        }
                    }
                }
                self.entries = e;
            },
            None => {
                e.push((k, v));
                let ghost new_e = e@;
                assert(new_e =~= old_e.push(new_e[old_e.len() as int]));
                let ghost n = old_e.len() as int;
                assert(keys_unique(new_e)) by {
                    assert forall|a: int, b: int| 0 <= a < b < new_e.len() implies new_e[a].0@
                        != new_e[b].0@ by {
                        if b == n {
                            assert(old_e[a].0@ != kv);
                        }
                    }
                }
                assert(map_of(new_e) =~= map_of(old_e).insert(kv, vv)) by {
                    assert forall|q: Seq<char>| #[trigger]
                        map_of(new_e).contains_key(q) <==> map_of(old_e).insert(
                            kv,
                            vv,
                        ).contains_key(q) by {
                        if has_key(new_e, q) {
                            let j = choose|j: int| 0 <= j < new_e.len() && new_e[j].0@ == q;
                            if j != n {
                                assert(old_e[j].0@ == q);
                            }
                        }
                        if has_key(old_e, q) {
                            let j = choose|j: int| 0 <= j < old_e.len() && old_e[j].0@ == q;
                            assert(new_e[j].0@ == q);
                        }
                        if q == kv {
                            assert(new_e[n].0@ == q);
                        }
                    }
                    assert forall|q: Seq<char>| #[trigger]
                        map_of(new_e).contains_key(q) implies map_of(new_e)[q] == map_of(
                        old_e,
                    ).insert(kv, vv)[q] by {
                        let j = choose|j: int| 0 <= j < new_e.len() && new_e[j].0@ == q;
                        lemma_map_of_at(new_e, j);
                        if j != n {
                            assert(old_e[j] == new_e[j]);
                            lemma_map_of_at(old_e, j);
                        }
                    }
                }
                self.entries = e;
            },
        }
    }

    fn find_in(&self, e: &Vec<(String, StringSet)>, k: &str) -> (r: Option<usize>)
        ensures
            match r {
                Some(i) => i < e@.len() && e@[i as int].0@ == k@,
                None => !has_key(e@, k@),
            },
    {
        let mut i: usize = 0;
        while i < e.len()
            invariant
                i <= e.len(),
                forall|j: int| 0 <= j < i ==> e@[j].0@ != k@,
            decreases e.len() - i,
        {
            if str_eq(e[i].0.as_str(), k) {
                return Some(i);
            }
            i = i + 1;
        }
        None
    }

    /// Removes the entry of `k`, if any.
    pub fn remove(&mut self, k: &str)
        ensures
            final(self)@ == old(self)@.remove(k@),
    {
        proof {
            use_type_invariant(&*self);
        }
        let mut e: Vec<(String, StringSet)> = Vec::new();
        std::mem::swap(&mut e, &mut self.entries);
        let ghost old_e = e@;
        let found = self.find_in(&e, k);
        match found {
            Some(i) => {
                let _ = e.remove(i);
                let ghost new_e = e@;
                assert(new_e =~= old_e.remove(i as int));
                assert(keys_unique(new_e)) by {
                    assert forall|a: int, b: int| 0 <= a < b < new_e.len() implies new_e[a].0@
                        != new_e[b].0@ by {
                        let oa = if a < i { a } else { a + 1 };
                        let ob = if b < i { b } else { b + 1 };
                        assert(new_e[a] == old_e[oa]);
                        assert(new_e[b] == old_e[ob]);
                    }
                }
                assert(map_of(new_e) =~= map_of(old_e).remove(k@)) by {
                    assert forall|q: Seq<char>| #[trigger]
                        map_of(new_e).contains_key(q) <==> map_of(old_e).remove(k@).contains_key(
                            q,
                        ) by {
                        if has_key(new_e, q) {
                            let j = choose|j: int| 0 <= j < new_e.len() && new_e[j].0@ == q;
                            let oj = if j < i { j } else { j + 1 };
                            assert(old_e[oj].0@ == q);
                            if q == k@ {
                                assert(old_e[i as int].0@ == k@);
                            }
                        }
                        if has_key(old_e, q) && q != k@ {
                            let j = choose|j: int| 0 <= j < old_e.len() && old_e[j].0@ == q;
                            if j < i {
                                assert(new_e[j].0@ == q);
                            } else {
                                assert(j != i);
                                assert(new_e[j - 1].0@ == q);
                            }
                        }
                    }
                    assert forall|q: Seq<char>| #[trigger]
                        map_of(new_e).contains_key(q) implies map_of(new_e)[q] == map_of(
                        old_e,
                    ).remove(k@)[q] by {
                        let j = choose|j: int| 0 <= j < new_e.len() && new_e[j].0@ == q;
                        lemma_map_of_at(new_e, j);
                        let oj = if j < i { j } else { j + 1 };
                        assert(old_e[oj] == new_e[j]);
                        lemma_map_of_at(old_e, oj);
                    }
                }
                self.entries = e;
            },
            None => {
                assert(map_of(old_e) =~= map_of(old_e).remove(k@));
                self.entries = e;
            },
        }
    }

    /// Removes every entry.
    pub fn clear(&mut self)
        ensures
            final(self)@ == Map::<Seq<char>, Seq<Seq<char>>>::empty(),
    {
        self.entries = Vec::new();
        assert(map_of(self.entries@) =~= Map::<Seq<char>, Seq<Seq<char>>>::empty());
    }
}

/// The members of a text set, as a mathematical set.
pub open spec fn members(s: Seq<Seq<char>>) -> Set<Seq<char>> {
    s.to_set()
}

/// `s` without `x` when `x` is a member, else `s` with `x`.
pub open spec fn toggled<T>(s: Set<T>, x: T) -> Set<T> {
    if s.contains(x) { s.remove(x) } else { s.insert(x) }
}

/// Toggling the same member twice gives the set back.
pub proof fn lemma_toggle_twice<T>(s: Set<T>, x: T)
    ensures
        toggled(toggled(s, x), x) == s,
{
    if s.contains(x) {
        assert(toggled(toggled(s, x), x) =~= s);
    } else {
        assert(toggled(toggled(s, x), x) =~= s);
    }
}

/// After a toggle, `x` is a member exactly when it was not before, and
/// nothing else changed.
pub proof fn lemma_toggle_flips<T>(s: Set<T>, x: T, y: T)
    ensures
        toggled(s, x).contains(x) == !s.contains(x),
        y != x ==> toggled(s, x).contains(y) == s.contains(y),
{
}

} // verus!
