//! A set of strings kept as a duplicate-free vector: the key sets of the
//! album-art queue (keys queued, keys in flight, keys known to have no art).
use vstd::prelude::*;
use crate::text::{str_eq, views};

verus! {

/// Does `v` hold a string with the characters of `k`?
pub fn lists_str(v: &Vec<String>, k: &str) -> (r: bool)
    ensures
        r == views(v@).contains(k@),
{
    let mut i: usize = 0;
    while i < v.len()
        invariant
            i <= v@.len(),
            forall|j: int| 0 <= j < i ==> v@[j]@ != k@,
        decreases v@.len() - i,
    {
        if str_eq(v[i].as_str(), k) {
            assert(views(v@)[i as int] == k@);
            return true;
        }
        i = i + 1;
    }
    proof {
        if views(v@).contains(k@) {
            let j = choose|j: int| 0 <= j < views(v@).len() && views(v@)[j] == k@;
            assert(v@[j]@ == k@);
        }
    }
    false
}

/// A finite set of strings. No string is stored twice.
#[derive(Debug)]
pub struct KeySet {
    keys: Vec<String>,
}

impl View for KeySet {
    type V = Set<Seq<char>>;

    closed spec fn view(&self) -> Set<Seq<char>> {
        views(self.keys@).to_set()
    }
}

impl KeySet {
    /// No string is stored twice.
    pub closed spec fn wf(&self) -> bool {
        views(self.keys@).no_duplicates()
    }

    /// The empty set.
    pub fn new() -> (s: Self)
        ensures
            s.wf(),
            s@ == Set::<Seq<char>>::empty(),
    {
        let s = KeySet { keys: Vec::new() };
        assert(s@ =~= Set::<Seq<char>>::empty());
        s
    }

    /// Where `k` is stored, if it is.
    fn find(&self, k: &str) -> (r: Option<usize>)
        ensures
            match r {
                Some(i) => i < self.keys@.len() && self.keys@[i as int]@ == k@,
                None => !views(self.keys@).contains(k@),
            },
    {
        let mut i: usize = 0;
        while i < self.keys.len()
            invariant
                i <= self.keys@.len(),
                forall|j: int| 0 <= j < i ==> self.keys@[j]@ != k@,
            decreases self.keys@.len() - i,
        {
            if str_eq(self.keys[i].as_str(), k) {
                return Some(i);
            }
            i = i + 1;
        }
        proof {
            if views(self.keys@).contains(k@) {
                let j = choose|j: int| 0 <= j < views(self.keys@).len() && views(self.keys@)[j] == k@;
                assert(self.keys@[j]@ == k@);
            }
        }
        None
    }

    /// Is `k` in the set?
    pub fn contains(&self, k: &str) -> (r: bool)
        ensures
            r == self@.contains(k@),
    {
        match self.find(k) {
            Some(i) => {
                assert(views(self.keys@)[i as int] == k@);
                true
            },
            None => false,
        }
    }

    /// Add `k`.
    pub fn insert(&mut self, k: String)
        requires
            old(self).wf(),
        ensures
            final(self).wf(),
            final(self)@ == old(self)@.insert(k@),
    {
        if self.contains(k.as_str()) {
            assert(self@.insert(k@) =~= self@);
            return;
        }
        let ghost before = views(self.keys@);
        self.keys.push(k);
        proof {
            assert(views(self.keys@) =~= before.push(k@));
            assert(before.push(k@).no_duplicates()) by {
                assert forall|a: int, b: int|
                    0 <= a < before.push(k@).len() && 0 <= b < before.push(k@).len() && a != b
                    implies before.push(k@)[a] != before.push(k@)[b] by {
                    if a < before.len() && b < before.len() {
                    } else if a == before.len() {
                        assert(before[b] == before.push(k@)[b]);
                    } else {
                        assert(before[a] == before.push(k@)[a]);
                    }
                }
            }
            assert forall|x: Seq<char>| before.push(k@).contains(x) <==> (before.contains(x) || x == k@) by {
                if before.push(k@).contains(x) {
                    let a = choose|a: int| 0 <= a < before.push(k@).len() && before.push(k@)[a] == x;
                    if a < before.len() {
                        assert(before[a] == x);
                    }
                }
                if before.contains(x) {
                    let b = choose|b: int| 0 <= b < before.len() && before[b] == x;
                    assert(before.push(k@)[b] == x);
                }
                if x == k@ {
                    assert(before.push(k@)[before.len() as int] == x);
                }
            }
            assert(before.push(k@).to_set() =~= before.to_set().insert(k@));
        }
    }

    /// Take `k` out; says whether it was there.
    pub fn remove(&mut self, k: &str) -> (r: bool)
        requires
            old(self).wf(),
        ensures
            final(self).wf(),
            r == old(self)@.contains(k@),
            final(self)@ == old(self)@.remove(k@),
    {
        match self.find(k) {
            None => {
                assert(self@.remove(k@) =~= self@);
                assert(!self@.contains(k@));
                false
            },
            Some(i) => {
                let ghost before = views(self.keys@);
                assert(before[i as int] == k@);
                self.keys.remove(i);
                proof {
                    let after = views(self.keys@);
                    assert(after =~= before.remove(i as int));
                    assert(after.no_duplicates()) by {
                        assert forall|a: int, b: int|
                            0 <= a < after.len() && 0 <= b < after.len() && a != b
                            implies after[a] != after[b] by {
                            let a2 = if a < i { a } else { a + 1 };
                            let b2 = if b < i { b } else { b + 1 };
                            assert(after[a] == before[a2]);
                            assert(after[b] == before[b2]);
                        }
                    }
                    assert forall|x: Seq<char>| after.contains(x) <==> (before.contains(x) && x != k@) by {
                        if after.contains(x) {
                            let a = choose|a: int| 0 <= a < after.len() && after[a] == x;
                            let a2 = if a < i { a } else { a + 1 };
                            assert(before[a2] == x);
                            assert(a2 != i);
                        }
                        if before.contains(x) && x != k@ {
                            let b = choose|b: int| 0 <= b < before.len() && before[b] == x;
                            assert(b != i);
                            let b2 = if b < i { b } else { b - 1 };
                            assert(after[b2] == x);
                        }
                    }
                    assert(after.to_set() =~= before.to_set().remove(k@));
                }
                true
            },
        }
    }

    /// Empty the set.
    pub fn clear(&mut self)
        ensures
            final(self).wf(),
            final(self)@ == Set::<Seq<char>>::empty(),
    {
        self.keys.clear();
        assert(self@ =~= Set::<Seq<char>>::empty());
    }
}

} // verus!
