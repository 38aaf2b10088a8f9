//! A table of values looked up by name, with at most one entry per name.

use vstd::prelude::*;
use vstd::utf8::{decode_utf8, encode_utf8};

use crate::codec::{has_prefix, starts_with};
use crate::keys::same_bytes;

verus! {

/// Whether two strings hold the same characters.
pub fn name_is(name: &str, target: &str) -> (r: bool)
    ensures
        r == (name@ == target@),
{
    let r = same_bytes(name.as_bytes(), target.as_bytes());
    proof {
        broadcast use vstd::utf8::encode_utf8_decode_utf8;

        if r {
            assert(decode_utf8(encode_utf8(name@)) == decode_utf8(encode_utf8(target@)));
        }
    }
    r
}

/// Whether the UTF-8 bytes of `name` begin with those of `prefix`.
pub fn has_name_prefix(name: &str, prefix: &str) -> (r: bool)
    ensures
        r == starts_with(encode_utf8(name@), encode_utf8(prefix@)),
{
    has_prefix(name.as_bytes(), prefix.as_bytes())
}

/// Values looked up by name. Each name has at most one entry.
pub struct NameTable<T> {
    names: Vec<String>,
    values: Vec<T>,
}

impl<T> View for NameTable<T> {
    type V = Map<Seq<char>, T>;

    closed spec fn view(&self) -> Map<Seq<char>, T> {
        Map::new(
            |k: Seq<char>| exists|i: int| self.holds_at(k, i),
            |k: Seq<char>| self.values@[choose|i: int| self.holds_at(k, i)],
        )
    }
}

impl<T> NameTable<T> {
    /// Whether entry `i` is the one named `k`.
    closed spec fn holds_at(&self, k: Seq<char>, i: int) -> bool {
        0 <= i < self.names@.len() && self.names@[i]@ == k
    }

    /// The table's invariant: one value per name, and no name twice.
    pub closed spec fn wf(&self) -> bool {
        &&& self.names@.len() == self.values@.len()
        &&& forall|i: int, j: int|
            0 <= i < self.names@.len() && 0 <= j < self.names@.len() && i != j
                ==> self.names@[i]@ != self.names@[j]@
    }

    /// The entry at position `i` is what the view holds under its name.
    proof fn lemma_entry(&self, i: int)
        requires
            self.wf(),
            0 <= i < self.names@.len(),
        ensures
            self@.contains_key(self.names@[i]@),
            self@[self.names@[i]@] == self.values@[i],
    {
        let k = self.names@[i]@;
        assert(self.holds_at(k, i));
        let j = choose|j: int| self.holds_at(k, j);
        assert(j == i);
    }

    /// A name that no entry carries is not in the view.
    proof fn lemma_absent(&self, k: Seq<char>)
        requires
            forall|i: int| 0 <= i < self.names@.len() ==> self.names@[i]@ != k,
        ensures
            !self@.contains_key(k),
    {
    }

    /// The empty table.
    pub fn new() -> (t: NameTable<T>)
        ensures
            t.wf(),
            t@ == Map::<Seq<char>, T>::empty(),
    {
        let t = NameTable { names: Vec::new(), values: Vec::new() };
        assert(t@ =~= Map::<Seq<char>, T>::empty());
        t
    }

    /// The position of the entry named `name`, if there is one.
    fn find(&self, name: &str) -> (r: Option<usize>)
        requires
            self.wf(),
        ensures
            r matches Some(i) ==> self.holds_at(name@, i as int),
            r is None ==> forall|i: int| 0 <= i < self.names@.len() ==> self.names@[i]@ != name@,
    {
        let n: usize = self.names.len();
        let mut i: usize = 0;
        while i < n
            invariant
                i <= n,
                n == self.names@.len(),
                forall|j: int| 0 <= j < i ==> self.names@[j]@ != name@,
            decreases n - i,
        {
            if name_is(self.names[i].as_str(), name) {
                return Some(i);
            }
            i = i + 1;
        }
        None
    }

    /// The value named `name`, if the table has one.
    pub fn get(&self, name: &str) -> (r: Option<&T>)
        requires
            self.wf(),
        ensures
            r is Some <==> self@.contains_key(name@),
            r matches Some(v) ==> *v == self@[name@],
    {
        match self.find(name) {
            Some(i) => {
                proof {
                    self.lemma_entry(i as int);
                }
                Some(&self.values[i])
            },
            None => {
                proof {
                    self.lemma_absent(name@);
                }
                None
            },
        }
    }

    /// Replaces the value of entry `i`, handing back the value it held.
    fn replace_at(&mut self, i: usize, value: T) -> (prev: T)
        requires
            old(self).wf(),
            i < old(self).names@.len(),
        ensures
            final(self).wf(),
            final(self).names@ == old(self).names@,
            final(self)@ == old(self)@.insert(old(self).names@[i as int]@, value),
            prev == old(self).values@[i as int],
    {
        let ghost k = self.names@[i as int]@;
        let mut slot = value;
        self.values.set_and_swap(i, &mut slot);
        proof {
            let pre = *old(self);
            assert forall|key: Seq<char>| #[trigger] self@.contains_key(key) <==> pre@.insert(
                k,
                value,
            ).contains_key(key) by {
                if key == k {
                    assert(self.holds_at(key, i as int));
                } else if self@.contains_key(key) {
                    let j = choose|j: int| self.holds_at(key, j);
                    assert(pre.holds_at(key, j));
                } else if pre@.contains_key(key) {
                    let j = choose|j: int| pre.holds_at(key, j);
                    assert(self.holds_at(key, j));
                }
            }
            assert forall|key: Seq<char>| #[trigger] self@.contains_key(key) implies self@[key]
                == pre@.insert(k, value)[key] by {
                let j = choose|j: int| self.holds_at(key, j);
                self.lemma_entry(j);
                if key != k {
                    assert(j != i);
                    pre.lemma_entry(j);
                } else {
                    self.lemma_entry(i as int);
                }
            }
            assert(self@ =~= pre@.insert(k, value));
        }
        slot
    }

    /// Adds an entry for a name the table does not hold.
    fn append_entry(&mut self, name: &str, value: T)
        requires
            old(self).wf(),
            forall|i: int| 0 <= i < old(self).names@.len() ==> old(self).names@[i]@ != name@,
        ensures
            final(self).wf(),
            final(self)@ == old(self)@.insert(name@, value),
    {
        let ghost pre = *self;
        self.names.push(name.to_owned());
        self.values.push(value);
        proof {
            let n = pre.names@.len() as int;
            assert(self.names@[n]@ == name@);
            assert forall|key: Seq<char>| #[trigger] self@.contains_key(key) <==> pre@.insert(
                name@,
                value,
            ).contains_key(key) by {
                if key == name@ {
                    assert(self.holds_at(key, n));
                } else if self@.contains_key(key) {
                    let j = choose|j: int| self.holds_at(key, j);
                    assert(pre.holds_at(key, j));
                } else if pre@.contains_key(key) {
                    let j = choose|j: int| pre.holds_at(key, j);
                    assert(self.holds_at(key, j));
                }
            }
            assert forall|key: Seq<char>| #[trigger] self@.contains_key(key) implies self@[key]
                == pre@.insert(name@, value)[key] by {
                let j = choose|j: int| self.holds_at(key, j);
                self.lemma_entry(j);
                if key != name@ {
                    assert(j != n);
                    pre.lemma_entry(j);
                } else {
                    self.lemma_entry(n);
                }
            }
            assert(self@ =~= pre@.insert(name@, value));
        }
    }

    /// Sets the value named `name`, adding an entry when there is none.
    pub fn insert(&mut self, name: &str, value: T)
        requires
            old(self).wf(),
        ensures
            final(self).wf(),
            final(self)@ == old(self)@.insert(name@, value),
    {
        match self.find(name) {
            Some(i) => {
                let _ = self.replace_at(i, value);
            },
            None => self.append_entry(name, value),
        }
    }

    /// Removes every entry.
    pub fn clear(&mut self)
        ensures
            final(self).wf(),
            final(self)@ == Map::<Seq<char>, T>::empty(),
    {
        self.names.clear();
        self.values.clear();
        assert(self@ =~= Map::<Seq<char>, T>::empty());
    }
}

impl<T: Copy> NameTable<T> {
    /// The entries whose names begin, byte for byte, with `prefix`: each
    /// such entry once, with its value, and no other.
    pub fn entries_with_prefix(&self, prefix: &str) -> (r: Vec<(String, T)>)
        requires
            self.wf(),
        ensures
            forall|j: int|
                0 <= j < r@.len() ==> self@.contains_key(#[trigger] r@[j].0@) && r@[j].1
                    == self@[r@[j].0@] && starts_with(encode_utf8(r@[j].0@), encode_utf8(prefix@)),
            forall|k: Seq<char>|
                self@.contains_key(k) && starts_with(encode_utf8(k), encode_utf8(prefix@))
                    ==> exists|j: int| 0 <= j < r@.len() && #[trigger] r@[j].0@ == k,
            forall|j1: int, j2: int|
                0 <= j1 < r@.len() && 0 <= j2 < r@.len() && j1 != j2 ==> r@[j1].0@ != r@[j2].0@,
    {
        let n: usize = self.names.len();
        let mut r: Vec<(String, T)> = Vec::new();
        let ghost mut idx: Seq<int> = Seq::empty();
        let mut i: usize = 0;
        while i < n
            invariant
                i <= n,
                n == self.names@.len(),
                self.wf(),
                idx.len() == r@.len(),
                forall|j: int| 0 <= j < idx.len() ==> 0 <= #[trigger] idx[j] < i,
                forall|j1: int, j2: int| 0 <= j1 < j2 < idx.len() ==> idx[j1] < idx[j2],
                forall|j: int|
                    0 <= j < r@.len() ==> #[trigger] r@[j].0@ == self.names@[idx[j]]@ && r@[j].1
                        == self.values@[idx[j]] && starts_with(
                        encode_utf8(r@[j].0@),
                        encode_utf8(prefix@),
                    ),
                forall|m: int|
                    0 <= m < i && starts_with(encode_utf8(self.names@[m]@), encode_utf8(prefix@))
                        ==> exists|j: int| 0 <= j < idx.len() && #[trigger] idx[j] == m,
            decreases n - i,
        {
            if has_name_prefix(self.names[i].as_str(), prefix) {
                let name = self.names[i].clone();
                let value = self.values[i];
                r.push((name, value));
                proof {
                    let old_idx = idx;
                    idx = idx.push(i as int);
                    assert forall|m: int|
                        0 <= m < i + 1 && starts_with(
                            encode_utf8(self.names@[m]@),
                            encode_utf8(prefix@),
                        ) implies exists|j: int| 0 <= j < idx.len() && #[trigger] idx[j] == m by {
                        if m == i {
                            assert(idx[old_idx.len() as int] == m);
                        } else {
                            let j = choose|j: int| 0 <= j < old_idx.len() && old_idx[j] == m;
                            assert(idx[j] == m);
                        }
                    }
                }
            }
            i = i + 1;
        }
        proof {
            assert forall|j: int| 0 <= j < r@.len() implies self@.contains_key(
                #[trigger] r@[j].0@,
            ) && r@[j].1 == self@[r@[j].0@] by {
                self.lemma_entry(idx[j]);
            }
            assert forall|k: Seq<char>|
                self@.contains_key(k) && starts_with(
                    encode_utf8(k),
                    encode_utf8(prefix@),
                ) implies exists|j: int| 0 <= j < r@.len() && #[trigger] r@[j].0@ == k by {
                let m = choose|m: int| self.holds_at(k, m);
                let j = choose|j: int| 0 <= j < idx.len() && idx[j] == m;
                assert(r@[j].0@ == k);
            }
            assert forall|j1: int, j2: int|
                0 <= j1 < r@.len() && 0 <= j2 < r@.len() && j1 != j2 implies r@[j1].0@
                != r@[j2].0@ by {
                assert(idx[j1] != idx[j2]);
            }
        }
        r
    }
}

impl NameTable<u64> {
    /// The value named `k`, or zero when the table holds none.
    pub open spec fn value_or_zero(&self, k: Seq<char>) -> u64 {
        if self@.contains_key(k) {
            self@[k]
        } else {
            0
        }
    }

    /// Adds `value` to the value named `name`, which starts at zero when the
    /// table holds none.
    pub fn add(&mut self, name: &str, value: u64)
        requires
            old(self).wf(),
            old(self).value_or_zero(name@) + value <= u64::MAX,
        ensures
            final(self).wf(),
            final(self)@ == old(self)@.insert(
                name@,
                (old(self).value_or_zero(name@) + value) as u64,
            ),
    {
        let current: u64 = match self.get(name) {
            Some(v) => *v,
            None => 0,
        };
        self.insert(name, current + value);
    }
}

impl<T> NameTable<Vec<T>> {
    /// The values recorded under `k` so far; none when the table holds no
    /// entry for it.
    pub open spec fn recorded(&self, k: Seq<char>) -> Seq<T> {
        if self@.contains_key(k) {
            self@[k]@
        } else {
            Seq::empty()
        }
    }

    /// Appends `value` to the list named `name`, which starts empty when the
    /// table holds none. Other entries stay as they are.
    pub fn push_value(&mut self, name: &str, value: T)
        requires
            old(self).wf(),
        ensures
            final(self).wf(),
            final(self)@.contains_key(name@),
            final(self)@[name@]@ == old(self).recorded(name@).push(value),
            final(self)@.remove(name@) == old(self)@.remove(name@),
    {
        match self.find(name) {
            Some(i) => {
                proof {
                    self.lemma_entry(i as int);
                }
                let mut list = self.replace_at(i, Vec::new());
                let ghost mid = self@;
                list.push(value);
                let _ = self.replace_at(i, list);
                proof {
                    let k = name@;
                    assert(mid.insert(k, list) =~= old(self)@.insert(k, list));
                    assert(old(self)@.insert(k, list).remove(k) =~= old(self)@.remove(k));
                }
            },
            None => {
                let mut list: Vec<T> = Vec::new();
                list.push(value);
                proof {
                    self.lemma_absent(name@);
                }
                self.append_entry(name, list);
                proof {
                    assert(old(self)@.insert(name@, list).remove(name@) =~= old(self)@.remove(
                        name@,
                    ));
                }
            },
        }
    }
}

/// A table after `insert(k, v)` reads `v` under `k` and, under every other
/// name, what it read before: `get` after `insert` gives back the value
/// written, and leaves the other entries as they were.
pub proof fn lemma_get_after_insert<T>(
    before: NameTable<T>,
    after: NameTable<T>,
    k: Seq<char>,
    v: T,
    other: Seq<char>,
)
    requires
        after@ == before@.insert(k, v),
    ensures
        after@.contains_key(k) && after@[k] == v,
        other != k ==> (after@.contains_key(other) <==> before@.contains_key(other)),
        other != k && before@.contains_key(other) ==> after@[other] == before@[other],
{
}

} // verus!
