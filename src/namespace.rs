//! A directory of kernel objects keyed by their UTF-16 names, each name held
//! at most once.
use vstd::prelude::*;

verus! {

/// Compares two UTF-16 names.
pub fn names_equal(a: &Vec<u16>, b: &Vec<u16>) -> (r: bool)
    ensures
        r == (a@ == b@),
{
    if a.len() != b.len() {
        return false;
    }
    let mut i: usize = 0;
    while i < a.len()
        invariant
            a.len() == b.len(),
            i <= a.len(),
            forall|j: int| 0 <= j < i ==> a@[j] == b@[j],
        decreases a.len() - i,
    {
        if a[i] != b[i] {
            return false;
        }
        i += 1;
    }
    assert(a@ =~= b@);
    true
}

/// One named object.
pub struct Entry<V> {
    pub name: Vec<u16>,
    pub value: V,
}

/// Named objects, in order of creation.
pub struct Directory<V> {
    pub entries: Vec<Entry<V>>,
}

impl<V> Directory<V> {
    /// No name is held twice.
    pub open spec fn wf(self) -> bool {
        forall|i: int, j: int|
            0 <= i < j < self.entries@.len() ==> #[trigger] self.entries@[i].name@
                != #[trigger] self.entries@[j].name@
    }

    /// Whether an object named `name` exists.
    pub open spec fn has(self, name: Seq<u16>) -> bool {
        exists|i: int| 0 <= i < self.entries@.len() && #[trigger] self.entries@[i].name@ == name
    }

    /// Position of the object named `name`, where one exists.
    pub open spec fn index_of(self, name: Seq<u16>) -> int {
        choose|i: int| 0 <= i < self.entries@.len() && #[trigger] self.entries@[i].name@ == name
    }

    /// The object named `name`.
    pub open spec fn get(self, name: Seq<u16>) -> Option<V> {
        if self.has(name) {
            Some(self.entries@[self.index_of(name)].value)
        } else {
            None
        }
    }

    /// In a well-formed directory the object named `name` is the one at `i`.
    pub proof fn lemma_at(self, name: Seq<u16>, i: int)
        requires
            self.wf(),
            0 <= i < self.entries@.len(),
            self.entries@[i].name@ == name,
        ensures
            self.has(name),
            self.index_of(name) == i,
            self.get(name) == Some(self.entries@[i].value),
    {
        assert(self.has(name));
        let k = self.index_of(name);
        if k < i {
            assert(self.entries@[k].name@ != self.entries@[i].name@);
        } else if i < k {
            assert(self.entries@[i].name@ != self.entries@[k].name@);
        }
    }

    /// An empty directory.
    pub fn new() -> (r: Directory<V>)
        ensures
            r.wf(),
            r.entries@.len() == 0,
            forall|n: Seq<u16>| !r.has(n),
    {
        Directory { entries: Vec::new() }
    }

    /// Position of the object named `name`.
    pub fn find(&self, name: &Vec<u16>) -> (r: Option<usize>)
        requires
            self.wf(),
        ensures
            match r {
                Some(i) => i < self.entries@.len() && self.entries@[i as int].name@ == name@
                    && self.index_of(name@) == i,
                None => !self.has(name@),
            },
    {
        let mut i: usize = 0;
        while i < self.entries.len()
            invariant
                self.wf(),
                i <= self.entries@.len(),
                forall|j: int| 0 <= j < i ==> self.entries@[j].name@ != name@,
            decreases self.entries@.len() - i,
        {
            if names_equal(&self.entries[i].name, name) {
                proof {
                    self.lemma_at(name@, i as int);
                }
                return Some(i);
            }
            i += 1;
        }
        None
    }

    /// Adds an object named `name`, unless one of that name exists. Returns
    /// whether it was added.
    pub fn insert(&mut self, name: Vec<u16>, value: V) -> (inserted: bool)
        requires
            old(self).wf(),
        ensures
            final(self).wf(),
            inserted == !old(self).has(name@),
            inserted ==> forall|n: Seq<u16>|
                #[trigger] final(self).get(n) == if n == name@ {
                    Some(value)
                } else {
                    old(self).get(n)
                },
            !inserted ==> *final(self) == *old(self),
    {
        match self.find(&name) {
            Some(_) => false,
            None => {
                let ghost pre = *self;
                let ghost key = name@;
                self.entries.push(Entry { name, value });
                proof {
                    let post = *self;
                    let last = pre.entries@.len() as int;
                    assert(post.entries@[last].name@ == key);
                    assert forall|i: int, j: int|
                        0 <= i < j < post.entries@.len() implies #[trigger] post.entries@[i].name@
                            != #[trigger] post.entries@[j].name@ by {
                        if j == last {
                            assert(pre.entries@[i] == post.entries@[i]);
                        } else {
                            assert(pre.entries@[i].name@ != pre.entries@[j].name@);
                        }
                    }
                    assert forall|n: Seq<u16>|
                        #[trigger] post.get(n) == if n == key {
                            Some(value)
                        } else {
                            pre.get(n)
                        } by {
                        if n == key {
                            post.lemma_at(n, last);
                        } else if pre.has(n) {
                            let k = pre.index_of(n);
                            assert(pre.entries@[k] == post.entries@[k]);
                            pre.lemma_at(n, k);
                            post.lemma_at(n, k);
                        } else if post.has(n) {
                            let k = post.index_of(n);
                            assert(pre.entries@[k] == post.entries@[k]);
                        }
                    }
                }
                true
            },
        }
    }

    /// Removes the object named `name`, where one exists. Returns whether one
    /// was removed.
    pub fn remove(&mut self, name: &Vec<u16>) -> (removed: bool)
        requires
            old(self).wf(),
        ensures
            final(self).wf(),
            removed == old(self).has(name@),
            forall|n: Seq<u16>|
                #[trigger] final(self).get(n) == if n == name@ {
                    None
                } else {
                    old(self).get(n)
                },
    {
        match self.find(name) {
            None => {
                proof {
                    assert forall|n: Seq<u16>|
                        #[trigger] self.get(n) == if n == name@ {
                            None
                        } else {
                            self.get(n)
                        } by {}
                }
                false
            },
            Some(idx) => {
                let ghost pre = *self;
                let _ = self.entries.remove(idx);
                proof {
                    let post = *self;
                    let r = idx as int;
                    assert forall|i: int| 0 <= i < post.entries@.len() implies
                        #[trigger] post.entries@[i] == pre.entries@[if i < r { i } else { i + 1 }] by {}
                    assert forall|i: int, j: int|
                        0 <= i < j < post.entries@.len() implies #[trigger] post.entries@[i].name@
                            != #[trigger] post.entries@[j].name@ by {
                        let pi = if i < r { i } else { i + 1 };
                        let pj = if j < r { j } else { j + 1 };
                        assert(post.entries@[i] == pre.entries@[pi]);
                        assert(post.entries@[j] == pre.entries@[pj]);
                        assert(pre.entries@[pi].name@ != pre.entries@[pj].name@);
                    }
                    assert forall|n: Seq<u16>|
                        #[trigger] post.get(n) == if n == name@ {
                            None
                        } else {
                            pre.get(n)
                        } by {
                        if post.has(n) {
                            let k = post.index_of(n);
                            let pk = if k < r { k } else { k + 1 };
                            assert(post.entries@[k] == pre.entries@[pk]);
                            pre.lemma_at(n, pk);
                            post.lemma_at(n, k);
                            if n == name@ {
                                assert(pre.entries@[r].name@ == n);
                            }
                        } else if pre.has(n) && n != name@ {
                            let k = pre.index_of(n);
                            assert(k != r);
                            let qk = if k < r { k } else { k - 1 };
                            assert(post.entries@[qk] == pre.entries@[k]);
                        }
                    }
                }
                true
            },
        }
    }
}

} // verus!
