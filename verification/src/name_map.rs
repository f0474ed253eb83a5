//! Maps keyed by names, kept in ascending name order (the order in which roots are listed).

use vstd::prelude::*;

use crate::assoc::{assoc_map, lemma_assoc_map_key_index, lemma_assoc_map_last};
use crate::text::{chars_of, str_eq};

verus! {

/// Whether `a` comes before `b` in lexicographic character order.
pub open spec fn text_lt(a: Seq<char>, b: Seq<char>) -> bool
    decreases a.len(),
{
    if a.len() == 0 {
        b.len() > 0
    } else if b.len() == 0 {
        false
    } else if a[0] != b[0] {
        a[0] < b[0]
    } else {
        text_lt(a.drop_first(), b.drop_first())
    }
}

/// Lexicographic order is a strict total order.
pub proof fn lemma_text_lt_total(a: Seq<char>, b: Seq<char>)
    ensures
        !(text_lt(a, b) && text_lt(b, a)),
        !text_lt(a, a),
        a != b ==> (text_lt(a, b) || text_lt(b, a)),
    decreases a.len(),
{
    if a.len() > 0 && b.len() > 0 {
        lemma_text_lt_total(a.drop_first(), b.drop_first());
        if a[0] == b[0] && a != b {
            assert(a =~= seq![a[0]] + a.drop_first());
            assert(b =~= seq![b[0]] + b.drop_first());
        }
    } else if a.len() > 0 {
        lemma_text_lt_total(a.drop_first(), a.drop_first());
    } else if b.len() == 0 {
        assert(a =~= b);
    }
    if a.len() > 0 {
        lemma_text_lt_total(a.drop_first(), a.drop_first());
    }
}

/// Lexicographic order is transitive.
pub proof fn lemma_text_lt_trans(a: Seq<char>, b: Seq<char>, c: Seq<char>)
    requires
        text_lt(a, b),
        text_lt(b, c),
    ensures
        text_lt(a, c),
    decreases a.len(),
{
    if a.len() > 0 && b.len() > 0 && c.len() > 0 && a[0] == b[0] && b[0] == c[0] {
        lemma_text_lt_trans(a.drop_first(), b.drop_first(), c.drop_first());
    }
}

/// The order of two texts.
pub enum TextOrder {
    Less,
    Equal,
    Greater,
}

/// Compares two texts in lexicographic character order.
pub fn compare_text(a: &str, b: &str) -> (res: TextOrder)
    ensures
        (res is Less) == text_lt(a@, b@),
        (res is Equal) == (a@ == b@),
        (res is Greater) == text_lt(b@, a@),
{
    proof {
        lemma_text_lt_total(a@, b@);
    }
    let x = chars_of(a);
    let y = chars_of(b);
    let mut i: usize = 0;
    assert(a@.skip(0) =~= a@);
    assert(b@.skip(0) =~= b@);
    while i < x.len() && i < y.len() && x[i] == y[i]
        invariant
            x@ == a@,
            y@ == b@,
            i <= x.len(),
            i <= y.len(),
            forall|j: int| 0 <= j < i ==> x@[j] == y@[j],
            text_lt(a@, b@) == text_lt(a@.skip(i as int), b@.skip(i as int)),
            text_lt(b@, a@) == text_lt(b@.skip(i as int), a@.skip(i as int)),
        decreases x.len() - i,
    {
        assert(a@.skip(i as int).drop_first() =~= a@.skip(i + 1));
        assert(b@.skip(i as int).drop_first() =~= b@.skip(i + 1));
        i = i + 1;
    }
    if i == x.len() && i == y.len() {
        assert(a@ =~= b@);
        TextOrder::Equal
    } else if i == x.len() {
        TextOrder::Less
    } else if i == y.len() {
        TextOrder::Greater
    } else if x[i] < y[i] {
        TextOrder::Less
    } else {
        TextOrder::Greater
    }
}

/// The views of the keys of a list of entries.
pub open spec fn entry_views<V>(entries: Seq<(String, V)>) -> Seq<(Seq<char>, V)> {
    entries.map_values(|e: (String, V)| (e.0@, e.1))
}

/// Whether the keys of a list of entries ascend strictly.
pub open spec fn keys_ascend<V>(e: Seq<(Seq<char>, V)>) -> bool {
    forall|i: int, j: int| 0 <= i < j < e.len() ==> text_lt(e[i].0, e[j].0)
}

/// A map from names to values, iterated in ascending name order.
#[derive(Debug)]
pub struct NameMap<V> {
    entries: Vec<(String, V)>,
}

impl<V> NameMap<V> {
    /// The entries are in ascending, hence distinct, name order.
    #[verifier::type_invariant]
    spec fn inv(self) -> bool {
        keys_ascend(entry_views(self.entries@))
    }

    /// The map's contents.
    pub closed spec fn spec_map(&self) -> Map<Seq<char>, V> {
        assoc_map(entry_views(self.entries@))
    }

    /// The names, in ascending order.
    pub closed spec fn spec_keys(&self) -> Seq<Seq<char>> {
        entry_views(self.entries@).map_values(|e: (Seq<char>, V)| e.0)
    }

    /// An empty map.
    pub fn new() -> (res: Self)
        ensures
            res.spec_map() == Map::<Seq<char>, V>::empty(),
            res.spec_keys() == Seq::<Seq<char>>::empty(),
    {
        let res = NameMap { entries: Vec::new() };
        assert(res.spec_map() =~= Map::<Seq<char>, V>::empty());
        assert(res.spec_keys() =~= Seq::<Seq<char>>::empty());
        res
    }

    /// Sets the value of `name`, replacing the value it had.
    pub fn insert(&mut self, name: String, value: V)
        ensures
            final(self).spec_map() == old(self).spec_map().insert(name@, value),
    {
        proof {
            use_type_invariant(&*self);
        }
        let ghost e = entry_views(self.entries@);
        let mut i: usize = 0;
        let mut found = false;
        while i < self.entries.len()
            invariant
                e == entry_views(self.entries@),
                keys_ascend(e),
                i <= self.entries.len(),
                forall|j: int| 0 <= j < i ==> text_lt(#[trigger] e[j].0, name@),
            ensures
                i <= self.entries.len(),
                forall|j: int| 0 <= j < i ==> text_lt(#[trigger] e[j].0, name@),
                i < self.entries.len() ==> !text_lt(e[i as int].0, name@),
            decreases self.entries.len() - i,
        {
            match compare_text(self.entries[i].0.as_str(), name.as_str()) {
                TextOrder::Less => {
                    i = i + 1;
                },
                _ => {
                    break;
                },
            }
        }
        if i < self.entries.len() && str_eq(self.entries[i].0.as_str(), name.as_str()) {
            found = true;
        }
        let ghost k = name@;
        let ghost old_map = assoc_map(e);
        proof {
            assert forall|j: int| i <= j < e.len() implies text_lt(k, #[trigger] e[j].0) || (j
                == i && e[j].0 == k) by {
                lemma_text_lt_total(e[i as int].0, k);
                if j > i {
                    if e[i as int].0 != k {
                        lemma_text_lt_trans(k, e[i as int].0, e[j].0);
                    }
                }
            }
        }
        let mut entries: Vec<(String, V)> = Vec::new();
        std::mem::swap(&mut entries, &mut self.entries);
        if found {
            let _ = entries.remove(i);
        }
        entries.insert(i, (name, value));
        let ghost e2 = entry_views(entries@);
        proof {
            if found {
                assert(e2 =~= e.update(i as int, (k, value)));
            } else {
                assert(e2 =~= e.insert(i as int, (k, value)));
            }
            assert(keys_ascend(e2));
            lemma_ascend_map(e);
            lemma_ascend_map(e2);
            assert forall|kk: Seq<char>| #[trigger]
                assoc_map(e2).contains_key(kk) == old_map.insert(k, value).contains_key(kk)
                && (assoc_map(e2).contains_key(kk) ==> assoc_map(e2)[kk] == old_map.insert(
                k,
                value,
            )[kk]) by {
                if kk != k {
                    if assoc_map(e2).contains_key(kk) {
                        let j = choose|j: int| 0 <= j < e2.len() && e2[j].0 == kk;
                        if found || j < i {
                            assert(e[j].0 == kk);
                        } else {
                            assert(e[j - 1].0 == kk);
                        }
                    }
                    if old_map.contains_key(kk) {
                        let j = choose|j: int| 0 <= j < e.len() && e[j].0 == kk;
                        if found || j < i {
                            assert(e2[j].0 == kk);
                        } else {
                            assert(e2[j + 1].0 == kk);
                        }
                    }
                } else {
                    assert(e2[i as int].0 == k);
                }
            }
            assert(assoc_map(e2) =~= old_map.insert(k, value));
        }
        self.entries = entries;
    }

    /// Removes `name` and gives back its value, if it had one.
    pub fn remove(&mut self, name: &str) -> (res: Option<V>)
        ensures
            final(self).spec_map() == old(self).spec_map().remove(name@),
            match res {
                Some(v) => old(self).spec_map().contains_key(name@) && v == old(self).spec_map()[name@],
                None => !old(self).spec_map().contains_key(name@),
            },
    {
        proof {
            use_type_invariant(&*self);
        }
        let ghost e = entry_views(self.entries@);
        proof {
            lemma_ascend_map(e);
        }
        let mut i: usize = 0;
        while i < self.entries.len()
            invariant
                e == entry_views(self.entries@),
                i <= self.entries.len(),
                forall|j: int| 0 <= j < i ==> #[trigger] e[j].0 != name@,
            ensures
                i <= self.entries.len(),
                forall|j: int| 0 <= j < i ==> #[trigger] e[j].0 != name@,
                i < self.entries.len() ==> e[i as int].0 == name@,
            decreases self.entries.len() - i,
        {
            if str_eq(self.entries[i].0.as_str(), name) {
                break;
            }
            i = i + 1;
        }
        if i == self.entries.len() {
            proof {
                if assoc_map(e).contains_key(name@) {
                    let j = choose|j: int| 0 <= j < e.len() && e[j].0 == name@;
                    assert(e[j].0 != name@);
                }
                assert(assoc_map(e).remove(name@) =~= assoc_map(e));
            }
            return None;
        }
        let mut entries: Vec<(String, V)> = Vec::new();
        std::mem::swap(&mut entries, &mut self.entries);
        let (_, v) = entries.remove(i);
        let ghost e2 = entry_views(entries@);
        proof {
            assert(e2 =~= e.remove(i as int));
            assert(keys_ascend(e2));
            lemma_ascend_map(e2);
            assert forall|kk: Seq<char>| #[trigger]
                assoc_map(e2).contains_key(kk) == assoc_map(e).remove(name@).contains_key(kk)
                && (assoc_map(e2).contains_key(kk) ==> assoc_map(e2)[kk] == assoc_map(e)[kk]) by {
                if assoc_map(e2).contains_key(kk) {
                    let j = choose|j: int| 0 <= j < e2.len() && e2[j].0 == kk;
                    if j < i {
                        assert(e[j].0 == kk);
                        lemma_text_lt_total(e[j].0, e[i as int].0);
                    } else {
                        assert(e[j + 1].0 == kk);
                        lemma_text_lt_total(e[i as int].0, e[j + 1].0);
                    }
                }
                if assoc_map(e).contains_key(kk) && kk != name@ {
                    let j = choose|j: int| 0 <= j < e.len() && e[j].0 == kk;
                    if j < i {
                        assert(e2[j].0 == kk);
                    } else {
                        assert(j != i);
                        assert(e2[j - 1].0 == kk);
                    }
                }
            }
            assert(assoc_map(e2) =~= assoc_map(e).remove(name@));
        }
        self.entries = entries;
        Some(v)
    }

    /// Keeps the entries whose value `f` accepts; `keep` says which values it accepts.
    pub(crate) fn retain<F: Fn(&V) -> bool>(&mut self, f: F, Ghost(keep): Ghost<spec_fn(V) -> bool>)
        requires
            forall|v: &V| #[trigger] f.requires((v,)),
            forall|v: &V, b: bool| f.ensures((v,), b) ==> b == keep(*v),
        ensures
            final(self).spec_map() == filter_map(old(self).spec_map(), keep),
    {
        proof {
            use_type_invariant(&*self);
        }
        let ghost e = entry_views(self.entries@);
        let mut rest: Vec<(String, V)> = Vec::new();
        std::mem::swap(&mut rest, &mut self.entries);
        let mut kept: Vec<(String, V)> = Vec::new();
        let ghost mut i: int = 0;
        while rest.len() > 0
            invariant
                keys_ascend(e),
                0 <= i <= e.len(),
                entry_views(rest@) == e.skip(i),
                keys_ascend(entry_views(kept@)),
                forall|m: int, j: int|
                    0 <= m < kept@.len() && i <= j < e.len() ==> text_lt(
                        #[trigger] entry_views(kept@)[m].0,
                        #[trigger] e[j].0,
                    ),
                assoc_map(entry_views(kept@)) == filter_assoc(e.take(i), keep),
                forall|v: &V| #[trigger] f.requires((v,)),
                forall|v: &V, b: bool| f.ensures((v,), b) ==> b == keep(*v),
            decreases rest.len(),
        {
            let ghost ev = entry_views(rest@);
            let ghost old_rest = rest@;
            proof {
                assert(ev.len() == rest@.len());
                assert(e.skip(i).len() == e.len() - i);
                assert(i < e.len());
                assert(ev[0] == e.skip(i)[0]);
            }
            let (name, value) = rest.remove(0);
            proof {
                assert(ev[0] == e[i]);
                assert(e.take(i + 1).drop_last() =~= e.take(i));
                assert(e.take(i + 1).last() == e[i]);
                assert(rest@ =~= old_rest.remove(0));
                assert forall|j: int| 0 <= j < rest@.len() implies #[trigger] entry_views(rest@)[j]
                    == e.skip(i + 1)[j] by {
                    assert(rest@[j] == old_rest[j + 1]);
                    assert(ev[j + 1] == e.skip(i)[j + 1]);
                }
                assert(entry_views(rest@) =~= e.skip(i + 1));
            }
            let ghost before = kept@;
            if f(&value) {
                kept.push((name, value));
                proof {
                    assert(entry_views(kept@) =~= entry_views(before).push(e[i]));
                    crate::assoc::lemma_assoc_map_push(entry_views(before), e[i].0, e[i].1);
                    assert forall|m: int, j: int|
                        0 <= m < kept@.len() && i + 1 <= j < e.len() implies text_lt(
                        #[trigger] entry_views(kept@)[m].0,
                        #[trigger] e[j].0,
                    ) by {
                        if m < before.len() {
                            assert(entry_views(kept@)[m] == entry_views(before)[m]);
                        }
                    }
                }
            } else {
                proof {
                    assert forall|m: int, j: int|
                        0 <= m < kept@.len() && i + 1 <= j < e.len() implies text_lt(
                        #[trigger] entry_views(kept@)[m].0,
                        #[trigger] e[j].0,
                    ) by {}
                }
            }
            proof {
                i = i + 1;
            }
        }
        proof {
            assert(e.take(i) =~= e);
            lemma_filter_assoc(e, keep);
        }
        self.entries = kept;
    }

    /// Replaces each value by what `f` gives for it; `rel` relates each value to what `f`
    /// gives for it.
    pub(crate) fn update_values<F: Fn(V) -> V>(&mut self, f: F, Ghost(rel): Ghost<spec_fn(V, V) -> bool>)
        requires
            forall|v: V| #[trigger] f.requires((v,)),
            forall|v: V, w: V| f.ensures((v,), w) ==> rel(v, w),
        ensures
            final(self).spec_keys() == old(self).spec_keys(),
            final(self).spec_map().dom() == old(self).spec_map().dom(),
            forall|k: Seq<char>| #[trigger]
                old(self).spec_map().contains_key(k) ==> rel(
                    old(self).spec_map()[k],
                    final(self).spec_map()[k],
                ),
    {
        proof {
            use_type_invariant(&*self);
        }
        let ghost e = entry_views(self.entries@);
        let mut rest: Vec<(String, V)> = Vec::new();
        std::mem::swap(&mut rest, &mut self.entries);
        let mut done: Vec<(String, V)> = Vec::new();
        let ghost mut i: int = 0;
        while rest.len() > 0
            invariant
                keys_ascend(e),
                0 <= i <= e.len(),
                entry_views(rest@) == e.skip(i),
                done@.len() == i,
                forall|j: int| 0 <= j < i ==> (#[trigger] entry_views(done@)[j]).0 == e[j].0,
                forall|j: int| 0 <= j < i ==> rel(e[j].1, #[trigger] entry_views(done@)[j].1),
                forall|v: V| #[trigger] f.requires((v,)),
                forall|v: V, w: V| f.ensures((v,), w) ==> rel(v, w),
            decreases rest.len(),
        {
            let ghost ev = entry_views(rest@);
            let ghost old_rest = rest@;
            proof {
                assert(ev.len() == rest@.len());
                assert(e.skip(i).len() == e.len() - i);
                assert(ev[0] == e.skip(i)[0]);
            }
            let (name, value) = rest.remove(0);
            let value = f(value);
            let ghost before = done@;
            done.push((name, value));
            proof {
                assert(rest@ =~= old_rest.remove(0));
                assert forall|j: int| 0 <= j < rest@.len() implies #[trigger] entry_views(rest@)[j]
                    == e.skip(i + 1)[j] by {
                    assert(rest@[j] == old_rest[j + 1]);
                    assert(ev[j + 1] == e.skip(i)[j + 1]);
                }
                assert(entry_views(rest@) =~= e.skip(i + 1));
                assert forall|j: int| 0 <= j < i + 1 implies (#[trigger] entry_views(done@)[j]).0
                    == e[j].0 && rel(e[j].1, entry_views(done@)[j].1) by {
                    if j < i {
                        assert(entry_views(done@)[j] == entry_views(before)[j]);
                    }
                }
                i = i + 1;
            }
        }
        let ghost d = entry_views(done@);
        proof {
            assert(e.skip(i).len() == 0);
            assert forall|a: int, b: int| 0 <= a < b < d.len() implies text_lt(d[a].0, d[b].0) by {
                assert(d[a].0 == e[a].0);
                assert(d[b].0 == e[b].0);
            }
            lemma_ascend_map(e);
            lemma_ascend_map(d);
        }
        self.entries = done;
        proof {
            assert forall|j: int| 0 <= j < self.spec_keys().len() implies self.spec_keys()[j]
                == old(self).spec_keys()[j] by {
                assert(d[j].0 == e[j].0);
            }
            assert(self.spec_keys() =~= old(self).spec_keys());
            assert forall|k: Seq<char>| #[trigger] assoc_map(d).contains_key(k) <==> assoc_map(
                e,
            ).contains_key(k) by {
                if assoc_map(d).contains_key(k) {
                    let j = choose|j: int| 0 <= j < d.len() && d[j].0 == k;
                    assert(e[j].0 == k);
                }
                if assoc_map(e).contains_key(k) {
                    let j = choose|j: int| 0 <= j < e.len() && e[j].0 == k;
                    assert(d[j].0 == k);
                }
            }
            assert(assoc_map(d).dom() =~= assoc_map(e).dom());
            assert forall|k: Seq<char>| #[trigger] assoc_map(e).contains_key(k) implies rel(
                assoc_map(e)[k],
                assoc_map(d)[k],
            ) by {
                let j = choose|j: int| 0 <= j < e.len() && e[j].0 == k;
                assert(d[j].0 == k);
            }
        }
    }

    /// The names and values, in ascending order of the names.
    pub fn pairs(&self) -> (res: Vec<(&str, &V)>)
        ensures
            res.len() == self.spec_keys().len(),
            forall|i: int|
                0 <= i < res.len() ==> (#[trigger] res[i]).0@ == self.spec_keys()[i]
                    && self.spec_map().contains_key(self.spec_keys()[i]) && *res[i].1
                    == self.spec_map()[self.spec_keys()[i]],
            forall|k: Seq<char>| #[trigger]
                self.spec_map().contains_key(k) <==> self.spec_keys().contains(k),
    {
        proof {
            use_type_invariant(self);
        }
        let ghost e = entry_views(self.entries@);
        proof {
            lemma_ascend_map(e);
            assert forall|k: Seq<char>| #[trigger]
                self.spec_map().contains_key(k) <==> self.spec_keys().contains(k) by {
                if self.spec_map().contains_key(k) {
                    let j = choose|j: int| 0 <= j < e.len() && e[j].0 == k;
                    assert(self.spec_keys()[j] == k);
                }
                if self.spec_keys().contains(k) {
                    let j = choose|j: int|
                        0 <= j < self.spec_keys().len() && self.spec_keys()[j] == k;
                    assert(e[j].0 == k);
                }
            }
        }
        let mut res: Vec<(&str, &V)> = Vec::new();
        let mut i: usize = 0;
        while i < self.entries.len()
            invariant
                e == entry_views(self.entries@),
                keys_ascend(e),
                i <= self.entries.len(),
                res.len() == i,
                forall|j: int| 0 <= j < i ==> (#[trigger] res[j]).0@ == e[j].0 && *res[j].1 == e[j].1,
            decreases self.entries.len() - i,
        {
            res.push((self.entries[i].0.as_str(), &self.entries[i].1));
            i = i + 1;
        }
        proof {
            lemma_ascend_map(e);
            assert forall|j: int| 0 <= j < res.len() implies self.spec_map().contains_key(
                self.spec_keys()[j],
            ) && *res[j].1 == self.spec_map()[self.spec_keys()[j]] by {
                assert(self.spec_keys()[j] == e[j].0);
            }
        }
        res
    }

    /// The value of `name`, if it has one.
    pub fn get(&self, name: &str) -> (res: Option<&V>)
        ensures
            match res {
                Some(v) => self.spec_map().contains_key(name@) && *v == self.spec_map()[name@],
                None => !self.spec_map().contains_key(name@),
            },
    {
        proof {
            use_type_invariant(self);
            lemma_ascend_map(entry_views(self.entries@));
        }
        let ghost e = entry_views(self.entries@);
        let mut i: usize = 0;
        while i < self.entries.len()
            invariant
                e == entry_views(self.entries@),
                i <= self.entries.len(),
                forall|j: int| 0 <= j < i ==> #[trigger] e[j].0 != name@,
            decreases self.entries.len() - i,
        {
            if str_eq(self.entries[i].0.as_str(), name) {
                proof {
                    use_type_invariant(self);
                    lemma_ascend_map(e);
                    assert(e[i as int].0 == name@);
                }
                return Some(&self.entries[i].1);
            }
            i = i + 1;
        }
        proof {
            if assoc_map(e).contains_key(name@) {
                let j = choose|j: int| 0 <= j < e.len() && e[j].0 == name@;
                assert(e[j].0 != name@);
            }
        }
        None
    }

    /// Whether `name` has a value.
    pub fn contains(&self, name: &str) -> (res: bool)
        ensures
            res == self.spec_map().contains_key(name@),
    {
        self.get(name).is_some()
    }

    /// The values, in ascending order of their names.
    pub fn values(&self) -> (res: Vec<&V>)
        ensures
            res.len() == self.spec_keys().len(),
            forall|i: int, j: int|
                0 <= i < j < self.spec_keys().len() ==> text_lt(
                    self.spec_keys()[i],
                    self.spec_keys()[j],
                ),
            forall|k: Seq<char>| #[trigger]
                self.spec_map().contains_key(k) <==> self.spec_keys().contains(k),
            forall|i: int|
                0 <= i < res.len() ==> self.spec_map().contains_key(self.spec_keys()[i])
                    && *res[i] == self.spec_map()[#[trigger] self.spec_keys()[i]],
    {
        proof {
            use_type_invariant(self);
        }
        let ghost e = entry_views(self.entries@);
        proof {
            lemma_ascend_map(e);
            assert forall|k: Seq<char>| #[trigger]
                self.spec_map().contains_key(k) <==> self.spec_keys().contains(k) by {
                if self.spec_map().contains_key(k) {
                    let j = choose|j: int| 0 <= j < e.len() && e[j].0 == k;
                    assert(self.spec_keys()[j] == k);
                }
                if self.spec_keys().contains(k) {
                    let j = choose|j: int|
                        0 <= j < self.spec_keys().len() && self.spec_keys()[j] == k;
                    assert(e[j].0 == k);
                }
            }
        }
        let mut res: Vec<&V> = Vec::new();
        let mut i: usize = 0;
        while i < self.entries.len()
            invariant
                e == entry_views(self.entries@),
                i <= self.entries.len(),
                res.len() == i,
                forall|j: int| 0 <= j < i ==> *res[j] == #[trigger] e[j].1,
            decreases self.entries.len() - i,
        {
            res.push(&self.entries[i].1);
            i = i + 1;
        }
        res
    }
}

/// The entries of a map whose values `keep` accepts.
pub open spec fn filter_map<V>(m: Map<Seq<char>, V>, keep: spec_fn(V) -> bool) -> Map<Seq<char>, V> {
    Map::new(|k: Seq<char>| m.contains_key(k) && keep(m[k]), |k: Seq<char>| m[k])
}

/// The map of the pairs of a list whose values `keep` accepts.
pub open spec fn filter_assoc<V>(e: Seq<(Seq<char>, V)>, keep: spec_fn(V) -> bool) -> Map<Seq<char>, V>
    decreases e.len(),
{
    if e.len() == 0 {
        Map::empty()
    } else if keep(e.last().1) {
        filter_assoc(e.drop_last(), keep).insert(e.last().0, e.last().1)
    } else {
        filter_assoc(e.drop_last(), keep)
    }
}

/// With distinct keys, filtering the pairs filters the map.
proof fn lemma_filter_assoc<V>(e: Seq<(Seq<char>, V)>, keep: spec_fn(V) -> bool)
    requires
        keys_ascend(e),
    ensures
        filter_assoc(e, keep) == filter_map(assoc_map(e), keep),
    decreases e.len(),
{
    if e.len() > 0 {
        let init = e.drop_last();
        assert(keys_ascend(init));
        lemma_filter_assoc(init, keep);
        assert forall|j: int| 0 <= j < init.len() implies init[j].0 != e.last().0 by {
            assert(text_lt(e[j].0, e[e.len() - 1].0));
            lemma_text_lt_total(e[j].0, e.last().0);
        }
        crate::assoc::lemma_assoc_map_absent(init, e.last().0);
        assert(filter_assoc(e, keep) =~= filter_map(assoc_map(e), keep));
    } else {
        assert(filter_assoc(e, keep) =~= filter_map(assoc_map(e), keep));
    }
}

/// In a list with ascending keys, each key's value is that of its entry, and every key of the
/// map has an entry.
proof fn lemma_ascend_map<V>(e: Seq<(Seq<char>, V)>)
    requires
        keys_ascend(e),
    ensures
        forall|i: int|
            0 <= i < e.len() ==> assoc_map(e).contains_key(#[trigger] e[i].0) && assoc_map(e)[e[i].0]
                == e[i].1,
        forall|k: Seq<char>| #[trigger]
            assoc_map(e).contains_key(k) ==> exists|i: int| 0 <= i < e.len() && e[i].0 == k,
{
    assert forall|i: int| 0 <= i < e.len() implies assoc_map(e).contains_key(#[trigger] e[i].0)
        && assoc_map(e)[e[i].0] == e[i].1 by {
        lemma_unique_last(e, i);
    }
    assert forall|k: Seq<char>| #[trigger] assoc_map(e).contains_key(k) implies exists|i: int|
        0 <= i < e.len() && e[i].0 == k by {
        lemma_assoc_map_key_index(e, k);
    }
}

/// In a list with ascending keys, every entry is the last one with its key.
proof fn lemma_unique_last<V>(e: Seq<(Seq<char>, V)>, i: int)
    requires
        keys_ascend(e),
        0 <= i < e.len(),
    ensures
        assoc_map(e).contains_key(e[i].0),
        assoc_map(e)[e[i].0] == e[i].1,
{
    assert forall|j: int| i < j < e.len() implies e[j].0 != e[i].0 by {
        lemma_text_lt_total(e[i].0, e[j].0);
    }
    lemma_assoc_map_last(e, i);
}

} // verus!
