use vstd::prelude::*;
use vstd::slice::slice_to_vec;

verus! {

/// A map from byte-string keys to values, held as two parallel vectors
/// with unique keys.
pub struct KeyedTable<V> {
    keys: Vec<Vec<u8>>,
    values: Vec<V>,
    contents: Ghost<Map<Seq<u8>, V>>,
}

impl<V> KeyedTable<V> {
    pub closed spec fn view(&self) -> Map<Seq<u8>, V> {
        self.contents@
    }

    pub closed spec fn wf(&self) -> bool {
        &&& self.keys@.len() == self.values@.len()
        &&& forall|i: int, j: int|
            0 <= i < j < self.keys@.len() ==> self.keys@[i]@ != self.keys@[j]@
        &&& forall|i: int|
            0 <= i < self.keys@.len() ==> #[trigger] self.contents@.contains_key(self.keys@[i]@)
                && self.contents@[self.keys@[i]@] == self.values@[i]
        &&& forall|k: Seq<u8>|
            #[trigger] self.contents@.contains_key(k) ==> exists|i: int|
                0 <= i < self.keys@.len() && self.keys@[i]@ == k
    }

    pub fn new() -> (r: Self)
        ensures
            r.wf(),
            r@ == Map::<Seq<u8>, V>::empty(),
    {
        KeyedTable { keys: Vec::new(), values: Vec::new(), contents: Ghost(Map::empty()) }
    }

    fn key_eq(a: &Vec<u8>, b: &[u8]) -> (r: bool)
        ensures
            r == (a@ == b@),
    {
        if a.len() != b.len() {
            return false;
        }
        let mut i: usize = 0;
        while i < a.len()
            invariant
                a@.len() == b@.len(),
                0 <= i <= a@.len(),
                forall|j: int| 0 <= j < i ==> a@[j] == b@[j],
            decreases a@.len() - i,
        {
            if a[i] != b[i] {
                return false;
            }
            i = i + 1;
        }
        assert(a@ =~= b@);
        true
    }

    fn find(&self, key: &[u8]) -> (r: Option<usize>)
        requires
            self.wf(),
        ensures
            r matches Some(i) ==> i < self.keys@.len() && self.keys@[i as int]@ == key@,
            r is None ==> !self@.contains_key(key@),
    {
        let mut i: usize = 0;
        while i < self.keys.len()
            invariant
                self.wf(),
                0 <= i <= self.keys@.len(),
                forall|j: int| 0 <= j < i ==> self.keys@[j]@ != key@,
            decreases self.keys@.len() - i,
        {
            if Self::key_eq(&self.keys[i], key) {
                return Some(i);
            }
            i = i + 1;
        }
        None
    }

    /// The value stored under `key`, if any.
    pub fn get(&self, key: &[u8]) -> (r: Option<&V>)
        requires
            self.wf(),
        ensures
            r is Some <==> self@.contains_key(key@),
            r matches Some(v) ==> *v == self@[key@],
    {
        match self.find(key) {
            Some(i) => {
                assert(self.contents@.contains_key(self.keys@[i as int]@));
                Some(&self.values[i])
            },
            None => None,
        }
    }

    /// Stores `value` under `key`, replacing what was there.
    pub fn insert(&mut self, key: &[u8], value: V)
        requires
            old(self).wf(),
        ensures
            final(self).wf(),
            final(self)@ == old(self)@.insert(key@, value),
    {
        let ghost m = self.contents@.insert(key@, value);
        match self.find(key) {
            Some(i) => {
                self.values.set(i, value);
                self.contents = Ghost(m);
                assert forall|j: int| 0 <= j < self.keys@.len() implies #[trigger] self.contents@.contains_key(
                    self.keys@[j]@,
                ) && self.contents@[self.keys@[j]@] == self.values@[j] by {
                    if j != i {
                        assert(old(self).contents@.contains_key(old(self).keys@[j]@));
                        assert(old(self).keys@[j]@ != key@);
                    }
                }
                assert forall|k: Seq<u8>| #[trigger] self.contents@.contains_key(k) implies exists|
                    j: int,
                | 0 <= j < self.keys@.len() && self.keys@[j]@ == k by {
                    if k != key@ {
                        assert(old(self).contents@.contains_key(k));
                    } else {
                        assert(self.keys@[i as int]@ == k);
                    }
                }
            },
            None => {
                let kv = slice_to_vec(key);
                self.keys.push(kv);
                self.values.push(value);
                self.contents = Ghost(m);
                let ghost n = self.keys@.len() - 1;
                assert(self.keys@[n]@ == key@);
                assert forall|j: int| 0 <= j < self.keys@.len() implies #[trigger] self.contents@.contains_key(
                    self.keys@[j]@,
                ) && self.contents@[self.keys@[j]@] == self.values@[j] by {
                    if j != n {
                        assert(old(self).contents@.contains_key(old(self).keys@[j]@));
                    }
                }
                assert forall|i: int, j: int|
                    0 <= i < j < self.keys@.len() implies self.keys@[i]@ != self.keys@[j]@ by {
                    if j == n {
                        assert(old(self).contents@.contains_key(self.keys@[i]@));
                    }
                }
                assert forall|k: Seq<u8>| #[trigger] self.contents@.contains_key(k) implies exists|
                    j: int,
                | 0 <= j < self.keys@.len() && self.keys@[j]@ == k by {
                    if k != key@ {
                        assert(old(self).contents@.contains_key(k));
                        let j = choose|j: int|
                            0 <= j < old(self).keys@.len() && old(self).keys@[j]@ == k;
                        assert(self.keys@[j]@ == k);
                    } else {
                        assert(self.keys@[n]@ == k);
                    }
                }
            },
        }
    }
}

} // verus!
