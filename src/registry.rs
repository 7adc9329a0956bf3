use vstd::prelude::*;

verus! {

/// A mapping from names to values, in which each name occurs at most once.
pub struct Registry<H> {
    entries: Vec<(String, H)>,
}

/// Whether no two entries carry the same name.
pub open spec fn names_unique<H>(s: Seq<(String, H)>) -> bool {
    forall|i: int, j: int|
        0 <= i < s.len() && 0 <= j < s.len() && i != j ==> #[trigger] s[i].0@ != #[trigger] s[j].0@
}

/// Whether some entry of `s` carries the name `k`.
pub open spec fn has_name<H>(s: Seq<(String, H)>, k: Seq<char>) -> bool {
    exists|i: int| 0 <= i < s.len() && #[trigger] s[i].0@ == k
}

/// The position of the entry named `k`, where there is one.
pub open spec fn position_of<H>(s: Seq<(String, H)>, k: Seq<char>) -> int {
    choose|i: int| 0 <= i < s.len() && #[trigger] s[i].0@ == k
}

/// The mapping that a sequence of uniquely named entries stands for.
pub open spec fn map_of<H>(s: Seq<(String, H)>) -> Map<Seq<char>, H> {
    Map::new(|k: Seq<char>| has_name(s, k), |k: Seq<char>| s[position_of(s, k)].1)
}

impl<H> View for Registry<H> {
    type V = Map<Seq<char>, H>;

    closed spec fn view(&self) -> Map<Seq<char>, H> {
        map_of(self.entries@)
    }
}

proof fn lemma_position_unique<H>(s: Seq<(String, H)>, i: int)
    requires
        names_unique(s),
        0 <= i < s.len(),
    ensures
        position_of(s, s[i].0@) == i,
        has_name(s, s[i].0@),
        map_of(s)[s[i].0@] == s[i].1,
{
    assert(has_name(s, s[i].0@));
}

impl<H> Registry<H> {
    /// Well-formedness: no name occurs twice.
    pub closed spec fn wf(&self) -> bool {
        names_unique(self.entries@)
    }

    /// An empty registry.
    pub fn new() -> (r: Self)
        ensures
            r.wf(),
            r@ == Map::<Seq<char>, H>::empty(),
    {
        let r = Registry { entries: Vec::new() };
        assert(r@ =~= Map::<Seq<char>, H>::empty());
        r
    }

    /// The position of the entry named `name`, if there is one.
    fn find(&self, name: &String) -> (r: Option<usize>)
        requires
            self.wf(),
        ensures
            r is None <==> !self@.contains_key(name@),
            r matches Some(i) ==> i < self.entries@.len() && self.entries@[i as int].0@ == name@,
    {
        let mut i: usize = 0;
        while i < self.entries.len()
            invariant
                0 <= i <= self.entries@.len(),
                forall|j: int| 0 <= j < i ==> #[trigger] self.entries@[j].0@ != name@,
            decreases self.entries@.len() - i,
        {
            if self.entries[i].0 == *name {
                return Some(i);
            }
            i += 1;
        }
        None
    }

    /// Whether a value is registered under `name`.
    pub fn contains(&self, name: &String) -> (r: bool)
        requires
            self.wf(),
        ensures
            r == self@.contains_key(name@),
    {
        self.find(name).is_some()
    }

    /// The value registered under `name`, if any.
    pub fn get(&self, name: &String) -> (r: Option<&H>)
        requires
            self.wf(),
        ensures
            r is Some <==> self@.contains_key(name@),
            r matches Some(h) ==> *h == self@[name@],
    {
        match self.find(name) {
            Some(i) => {
                proof {
                    lemma_position_unique(self.entries@, i as int);
                }
                Some(&self.entries[i].1)
            },
            None => None,
        }
    }

    /// Registers `value` under `name`; a value already registered under that
    /// name is replaced.
    pub fn insert(&mut self, name: String, value: H)
        requires
            old(self).wf(),
        ensures
            final(self).wf(),
            final(self)@ == old(self)@.insert(name@, value),
    {
        let ghost old_entries = self.entries@;
        let ghost k0 = name@;
        match self.find(&name) {
            Some(i) => {
                self.entries[i] = (name, value);
                proof {
                    let s = self.entries@;
                    assert(forall|p: int| 0 <= p < s.len() ==> #[trigger] s[p].0@ == old_entries[p].0@);
                    assert forall|k: Seq<char>| #[trigger] has_name(s, k) == has_name(old_entries, k) by {
                        if has_name(old_entries, k) {
                            let j = position_of(old_entries, k);
                            assert(s[j].0@ == k);
                        }
                        if has_name(s, k) {
                            let j = position_of(s, k);
                            assert(old_entries[j].0@ == k);
                        }
                    }
                    assert forall|k: Seq<char>| has_name(s, k) implies #[trigger] map_of(s)[k] == map_of(
                        old_entries,
                    ).insert(k0, value)[k] by {
                        let j = position_of(s, k);
                        lemma_position_unique(s, j);
                        if k != k0 {
                            assert(j != i);
                            lemma_position_unique(old_entries, j);
                        }
                    }
                    assert(map_of(s) =~= map_of(old_entries).insert(k0, value));
                }
            },
            None => {
                self.entries.push((name, value));
                proof {
                    let s = self.entries@;
                    let n = old_entries.len() as int;
                    assert forall|p: int| 0 <= p < n implies #[trigger] s[p].0@ != k0 by {
                        assert(old_entries[p].0@ == s[p].0@);
                    }
                    assert forall|k: Seq<char>| #[trigger] has_name(s, k) == (has_name(old_entries, k)
                        || k == k0) by {
                        if has_name(old_entries, k) {
                            let j = position_of(old_entries, k);
                            assert(s[j] == old_entries[j]);
                        }
                        if k == k0 {
                            assert(s[n].0@ == k0);
                        }
                        if has_name(s, k) && k != k0 {
                            let j = position_of(s, k);
                            assert(j != n);
                            assert(old_entries[j] == s[j]);
                        }
                    }
                    assert forall|k: Seq<char>| has_name(s, k) implies #[trigger] map_of(s)[k] == map_of(
                        old_entries,
                    ).insert(k0, value)[k] by {
                        let j = position_of(s, k);
                        lemma_position_unique(s, j);
                        if k != k0 {
                            assert(j != n);
                            assert(old_entries[j] == s[j]);
                            lemma_position_unique(old_entries, j);
                        }
                    }
                    assert(map_of(s) =~= map_of(old_entries).insert(k0, value));
                }
            },
        }
    }
}

} // verus!
