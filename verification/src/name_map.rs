//! A small map from names to values, kept as a list of entries in which no
//! name occurs twice.

use vstd::prelude::*;

verus! {

struct Entry<V> {
    name: String,
    value: V,
}

/// A map keyed by names. Its view is a `Map` from the characters of a name
/// to the view of the value stored under it.
pub struct NameMap<V> {
    entries: Vec<Entry<V>>,
}

spec fn distinct<V>(es: Seq<Entry<V>>) -> bool {
    forall|i: int, j: int| 0 <= i < j < es.len() ==> es[i].name@ != es[j].name@
}

spec fn has_name<V>(es: Seq<Entry<V>>, k: Seq<char>) -> bool {
    exists|i: int| 0 <= i < es.len() && (#[trigger] es[i]).name@ == k
}

spec fn index_of<V>(es: Seq<Entry<V>>, k: Seq<char>) -> int {
    choose|i: int| 0 <= i < es.len() && (#[trigger] es[i]).name@ == k
}

spec fn model_of<V: View>(es: Seq<Entry<V>>) -> Map<Seq<char>, V::V> {
    Map::new(|k: Seq<char>| has_name(es, k), |k: Seq<char>| es[index_of(es, k)].value@)
}

proof fn lemma_present<V: View>(es: Seq<Entry<V>>, i: int)
    requires
        distinct(es),
        0 <= i < es.len(),
    ensures
        model_of(es).dom().contains(es[i].name@),
        model_of(es)[es[i].name@] == es[i].value@,
{
    let k = es[i].name@;
    assert(has_name(es, k));
    let j = index_of(es, k);
    assert(0 <= j < es.len() && es[j].name@ == k);
    assert(j == i);
}

proof fn lemma_absent<V: View>(es: Seq<Entry<V>>, k: Seq<char>)
    requires
        forall|i: int| 0 <= i < es.len() ==> (#[trigger] es[i]).name@ != k,
    ensures
        !model_of(es).dom().contains(k),
{
}

proof fn lemma_witness<V: View>(es: Seq<Entry<V>>, k: Seq<char>) -> (i: int)
    requires
        model_of(es).dom().contains(k),
    ensures
        0 <= i < es.len(),
        es[i].name@ == k,
{
    assert(has_name(es, k));
    index_of(es, k)
}

proof fn lemma_push<V: View>(es: Seq<Entry<V>>, e: Entry<V>)
    requires
        distinct(es),
        !model_of(es).dom().contains(e.name@),
    ensures
        distinct(es.push(e)),
        model_of(es.push(e)) == model_of(es).insert(e.name@, e.value@),
{
    let after = es.push(e);
    assert forall|i: int| 0 <= i < es.len() implies (#[trigger] es[i]).name@ != e.name@ by {
        lemma_present(es, i);
    }
    assert(distinct(after));
    assert forall|k: Seq<char>| #[trigger]
        model_of(after).dom().contains(k) == model_of(es).insert(e.name@, e.value@).dom().contains(
            k,
        ) by {
        if model_of(after).dom().contains(k) {
            let i = lemma_witness(after, k);
            if i < es.len() {
                assert(es[i] == after[i]);
                lemma_present(es, i);
            }
        }
        if model_of(es).dom().contains(k) {
            let i = lemma_witness(es, k);
            assert(after[i] == es[i]);
            lemma_present(after, i);
        }
        if k == e.name@ {
            assert(after[es.len() as int] == e);
            lemma_present(after, es.len() as int);
        }
    }
    assert forall|k: Seq<char>| #[trigger]
        model_of(after).dom().contains(k) implies model_of(after)[k] == model_of(es).insert(
        e.name@,
        e.value@,
    )[k] by {
        let i = lemma_witness(after, k);
        lemma_present(after, i);
        if i < es.len() {
            assert(es[i] == after[i]);
            lemma_present(es, i);
        }
    }
    assert(model_of(after) =~= model_of(es).insert(e.name@, e.value@));
}

proof fn lemma_update<V: View>(es: Seq<Entry<V>>, p: int, e: Entry<V>)
    requires
        distinct(es),
        0 <= p < es.len(),
        es[p].name@ == e.name@,
    ensures
        distinct(es.update(p, e)),
        model_of(es.update(p, e)) == model_of(es).insert(e.name@, e.value@),
{
    let after = es.update(p, e);
    assert forall|i: int, j: int| 0 <= i < j < after.len() implies after[i].name@
        != after[j].name@ by {
        assert(after[i].name@ == es[i].name@);
        assert(after[j].name@ == es[j].name@);
    }
    assert forall|k: Seq<char>| #[trigger]
        model_of(after).dom().contains(k) == model_of(es).insert(e.name@, e.value@).dom().contains(
            k,
        ) by {
        if model_of(after).dom().contains(k) {
            let i = lemma_witness(after, k);
            assert(after[i].name@ == es[i].name@);
            lemma_present(es, i);
        }
        if model_of(es).dom().contains(k) {
            let i = lemma_witness(es, k);
            assert(after[i].name@ == es[i].name@);
            lemma_present(after, i);
        }
        if k == e.name@ {
            lemma_present(after, p);
        }
    }
    assert forall|k: Seq<char>| #[trigger]
        model_of(after).dom().contains(k) implies model_of(after)[k] == model_of(es).insert(
        e.name@,
        e.value@,
    )[k] by {
        let i = lemma_witness(after, k);
        lemma_present(after, i);
        if i != p {
            assert(es[i] == after[i]);
            lemma_present(es, i);
        }
    }
    assert(model_of(after) =~= model_of(es).insert(e.name@, e.value@));
}

proof fn lemma_remove<V: View>(es: Seq<Entry<V>>, p: int)
    requires
        distinct(es),
        0 <= p < es.len(),
    ensures
        distinct(es.remove(p)),
        model_of(es.remove(p)) == model_of(es).remove(es[p].name@),
{
    let after = es.remove(p);
    let gone = es[p].name@;
    assert(after.len() == es.len() - 1);
    assert forall|i: int| 0 <= i < after.len() implies #[trigger] after[i] == es[if i < p {
        i
    } else {
        i + 1
    }] by {}
    assert forall|i: int, j: int| 0 <= i < j < after.len() implies after[i].name@
        != after[j].name@ by {
        let a = if i < p { i } else { i + 1 };
        let b = if j < p { j } else { j + 1 };
        assert(after[i] == es[a]);
        assert(after[j] == es[b]);
    }
    assert forall|k: Seq<char>| #[trigger]
        model_of(after).dom().contains(k) == model_of(es).remove(gone).dom().contains(k) by {
        if model_of(after).dom().contains(k) {
            let i = lemma_witness(after, k);
            let a = if i < p { i } else { i + 1 };
            assert(after[i] == es[a]);
            lemma_present(es, a);
        }
        if model_of(es).dom().contains(k) && k != gone {
            let a = lemma_witness(es, k);
            let i = if a < p { a } else { a - 1 };
            assert(after[i] == es[a]);
            lemma_present(after, i);
        }
    }
    assert forall|k: Seq<char>| #[trigger]
        model_of(after).dom().contains(k) implies model_of(after)[k] == model_of(es).remove(
        gone,
    )[k] by {
        let i = lemma_witness(after, k);
        let a = if i < p { i } else { i + 1 };
        assert(after[i] == es[a]);
        lemma_present(after, i);
        lemma_present(es, a);
    }
    assert(model_of(after) =~= model_of(es).remove(gone));
}

/// Whether `names` lists every element of `domain` exactly once and
/// nothing else. The order of the list is left open.
pub open spec fn lists_names(names: Seq<String>, domain: Set<Seq<char>>) -> bool {
    &&& forall|i: int| 0 <= i < names.len() ==> domain.contains((#[trigger] names[i])@)
    &&& forall|k: Seq<char>|
        domain.contains(k) ==> exists|i: int| 0 <= i < names.len() && (#[trigger] names[i])@ == k
    &&& forall|i: int, j: int| 0 <= i < j < names.len() ==> names[i]@ != names[j]@
}

impl<V: View> View for NameMap<V> {
    type V = Map<Seq<char>, V::V>;

    closed spec fn view(&self) -> Map<Seq<char>, V::V> {
        model_of(self.entries@)
    }
}

impl<V> NameMap<V> {
    #[verifier::type_invariant]
    spec fn names_are_distinct(&self) -> bool {
        distinct(self.entries@)
    }
}

impl<V: View> NameMap<V> {
    /// An empty map.
    pub fn new() -> (m: Self)
        ensures
            m@ == Map::<Seq<char>, V::V>::empty(),
    {
        let m = NameMap { entries: Vec::new() };
        assert(m@ =~= Map::<Seq<char>, V::V>::empty());
        m
    }

    fn find(&self, name: &str) -> (r: Option<usize>)
        ensures
            match r {
                Some(i) => i < self.entries@.len() && self.entries@[i as int].name@ == name@,
                None => forall|i: int|
                    0 <= i < self.entries@.len() ==> (#[trigger] self.entries@[i]).name@ != name@,
            },
    {
        let mut i: usize = 0;
        while i < self.entries.len()
            invariant
                i <= self.entries@.len(),
                forall|j: int| 0 <= j < i ==> (#[trigger] self.entries@[j]).name@ != name@,
            decreases self.entries@.len() - i,
        {
            if self.entries[i].name.as_str().eq(name) {
                return Some(i);
            }
            i += 1;
        }
        None
    }

    /// Whether a value is stored under `name`.
    pub fn contains(&self, name: &str) -> (r: bool)
        ensures
            r == self@.dom().contains(name@),
    {
        self.get(name).is_some()
    }

    /// The value stored under `name`, if there is one.
    pub fn get(&self, name: &str) -> (r: Option<&V>)
        ensures
            match r {
                Some(v) => self@.dom().contains(name@) && v@ == self@[name@],
                None => !self@.dom().contains(name@),
            },
    {
        proof {
            use_type_invariant(self);
        }
        match self.find(name) {
            Some(i) => {
                proof {
                    lemma_present(self.entries@, i as int);
                }
                Some(&self.entries[i].value)
            },
            None => {
                proof {
                    lemma_absent(self.entries@, name@);
                }
                None
            },
        }
    }

    /// Stores `value` under `name`, in place of the value that was stored
    /// under that name, if there was one.
    pub fn insert(&mut self, name: String, value: V)
        ensures
            final(self)@ == old(self)@.insert(name@, value@),
    {
        proof {
            use_type_invariant(&*self);
        }
        let found = self.find(name.as_str());
        let mut entries: Vec<Entry<V>> = Vec::new();
        std::mem::swap(&mut entries, &mut self.entries);
        let entry = Entry { name, value };
        match found {
            Some(i) => {
                proof {
                    lemma_update(entries@, i as int, entry);
                }
                entries[i] = entry;
            },
            None => {
                proof {
                    lemma_absent(entries@, entry.name@);
                    lemma_push(entries@, entry);
                }
                entries.push(entry);
            },
        }
        self.entries = entries;
    }

    /// Takes out the value stored under `name`, if there is one.
    pub fn remove(&mut self, name: &str) -> (r: Option<V>)
        ensures
            final(self)@ == old(self)@.remove(name@),
            match r {
                Some(v) => old(self)@.dom().contains(name@) && v@ == old(self)@[name@],
                None => !old(self)@.dom().contains(name@),
            },
    {
        proof {
            use_type_invariant(&*self);
        }
        match self.find(name) {
            Some(i) => {
                let mut entries: Vec<Entry<V>> = Vec::new();
                std::mem::swap(&mut entries, &mut self.entries);
                proof {
                    lemma_present(entries@, i as int);
                    lemma_remove(entries@, i as int);
                }
                let entry = entries.remove(i);
                self.entries = entries;
                Some(entry.value)
            },
            None => {
                proof {
                    lemma_absent(self.entries@, name@);
                    assert(self@ =~= self@.remove(name@));
                }
                None
            },
        }
    }

    /// The names under which values are stored, each once.
    pub fn names(&self) -> (names: Vec<String>)
        ensures
            lists_names(names@, self@.dom()),
    {
        proof {
            use_type_invariant(self);
        }
        let mut names: Vec<String> = Vec::new();
        let mut i: usize = 0;
        while i < self.entries.len()
            invariant
                i <= self.entries@.len(),
                names@.len() == i,
                forall|j: int| 0 <= j < i ==> (#[trigger] names@[j])@ == self.entries@[j].name@,
            decreases self.entries@.len() - i,
        {
            names.push(self.entries[i].name.clone());
            i += 1;
        }
        proof {
            assert forall|j: int| 0 <= j < names@.len() implies self@.dom().contains(
                (#[trigger] names@[j])@,
            ) by {
                lemma_present(self.entries@, j);
            }
            assert forall|k: Seq<char>| self@.dom().contains(k) implies exists|j: int|
                0 <= j < names@.len() && (#[trigger] names@[j])@ == k by {
                let j = lemma_witness(self.entries@, k);
                assert(names@[j]@ == k);
            }
        }
        names
    }
}

} // verus!
