use vstd::prelude::*;

verus! {

/// An authenticated identity, as resolved by the host.
pub type AccountId = u64;

/// A position in the ledger (block height), supplied by the host's clock.
pub type BlockNumber = u64;

/// Who holds a claim, and since when.
#[derive(Clone, Copy, Debug, PartialEq, Eq, Structural)]
pub struct ClaimRecord {
    pub owner: AccountId,
    pub registered_at: BlockNumber,
}

/// `a` and `b` hold the same bytes.
pub fn bytes_eq(a: &Vec<u8>, b: &Vec<u8>) -> (r: bool)
    ensures
        r == (a@ == b@),
{
    if a.len() != b.len() {
        return false;
    }
    let mut i: usize = 0;
    while i < a.len()
        invariant
            a@.len() == b@.len(),
            0 <= i <= a@.len(),
            forall|j: int| 0 <= j < i ==> a@[j] == b@[j],
        decreases a@.len() - i,
    {
        if a[i] != b[i] {
            return false;
        }
        i = i + 1;
    }
    assert(a@ =~= b@);
    true
}

/// A fresh vector with the bytes of `v`.
pub fn copy_bytes(v: &Vec<u8>) -> (r: Vec<u8>)
    ensures
        r@ == v@,
{
    let mut r: Vec<u8> = Vec::with_capacity(v.len());
    let mut i: usize = 0;
    while i < v.len()
        invariant
            0 <= i <= v@.len(),
            r@ == v@.subrange(0, i as int),
        decreases v@.len() - i,
    {
        r.push(v[i]);
        i = i + 1;
        assert(r@ =~= v@.subrange(0, i as int));
    }
    assert(r@ =~= v@);
    r
}

/// A keyed table from proof bytes to the record of their claim.
///
/// Entries are held side by side in two vectors; `claims` is the table as a
/// mathematical map, and `wf` ties the two together: one entry per key, and
/// exactly the keys of the map.
pub struct ClaimStore {
    keys: Vec<Vec<u8>>,
    records: Vec<ClaimRecord>,
    claims: Ghost<Map<Seq<u8>, ClaimRecord>>,
}

impl ClaimStore {
    /// The table as a map from proof bytes to records.
    pub closed spec fn view(&self) -> Map<Seq<u8>, ClaimRecord> {
        self.claims@
    }

    /// One entry per key, and the entries are exactly the map.
    pub closed spec fn wf(&self) -> bool {
        &&& self.keys@.len() == self.records@.len()
        &&& forall|i: int, j: int|
            0 <= i < j < self.keys@.len() ==> #[trigger] self.keys@[i]@ != #[trigger] self.keys@[j]@
        &&& forall|i: int|
            0 <= i < self.keys@.len() ==> {
                &&& self.claims@.contains_key(#[trigger] self.keys@[i]@)
                &&& self.claims@[self.keys@[i]@] == self.records@[i]
            }
        &&& forall|k: Seq<u8>|
            #[trigger] self.claims@.contains_key(k) ==> exists|i: int|
                0 <= i < self.keys@.len() && #[trigger] self.keys@[i]@ == k
    }

    /// An empty table.
    pub fn new() -> (r: Self)
        ensures
            r.wf(),
            r.view() == Map::<Seq<u8>, ClaimRecord>::empty(),
    {
        ClaimStore { keys: Vec::new(), records: Vec::new(), claims: Ghost(Map::empty()) }
    }

    /// The index of `key` among the entries, if it has one.
    fn find(&self, key: &Vec<u8>) -> (r: Option<usize>)
        requires
            self.wf(),
        ensures
            match r {
                Some(i) => i < self.keys@.len() && self.keys@[i as int]@ == key@,
                None => !self.view().contains_key(key@),
            },
    {
        let mut i: usize = 0;
        while i < self.keys.len()
            invariant
                self.wf(),
                0 <= i <= self.keys@.len(),
                forall|j: int| 0 <= j < i ==> self.keys@[j]@ != key@,
            decreases self.keys@.len() - i,
        {
            if bytes_eq(&self.keys[i], key) {
                return Some(i);
            }
            i = i + 1;
        }
        None
    }

    /// Whether `key` is claimed.
    pub fn contains(&self, key: &Vec<u8>) -> (r: bool)
        requires
            self.wf(),
        ensures
            r == self.view().contains_key(key@),
    {
        match self.find(key) {
            Some(_) => true,
            None => false,
        }
    }

    /// The record of `key`, if it is claimed.
    pub fn get(&self, key: &Vec<u8>) -> (r: Option<ClaimRecord>)
        requires
            self.wf(),
        ensures
            r == (if self.view().contains_key(key@) {
                Some(self.view()[key@])
            } else {
                None
            }),
    {
        match self.find(key) {
            Some(i) => Some(self.records[i]),
            None => None,
        }
    }

    /// Sets the record of `key`, replacing the one it had.
    pub fn insert(&mut self, key: Vec<u8>, record: ClaimRecord)
        requires
            old(self).wf(),
        ensures
            final(self).wf(),
            final(self).view() == old(self).view().insert(key@, record),
    {
        let ghost k = key@;
        match self.find(&key) {
            Some(i) => {
                self.records.set(i, record);
                self.claims = Ghost(self.claims@.insert(k, record));
                assert forall|j: int| 0 <= j < self.keys@.len() implies {
                    &&& self.claims@.contains_key(#[trigger] self.keys@[j]@)
                    &&& self.claims@[self.keys@[j]@] == self.records@[j]
                } by {
                    if j != i {
                        assert(self.keys@[j]@ != self.keys@[i as int]@);
                    }
                }
            },
            None => {
                self.keys.push(key);
                self.records.push(record);
                self.claims = Ghost(self.claims@.insert(k, record));
                assert forall|k2: Seq<u8>| #[trigger] self.claims@.contains_key(k2) implies exists|i: int|
                    0 <= i < self.keys@.len() && #[trigger] self.keys@[i]@ == k2 by {
                    if k2 == k {
                        assert(self.keys@[self.keys@.len() - 1]@ == k2);
                    } else {
                        let i = choose|i: int| 0 <= i < old(self).keys@.len() && #[trigger] old(self).keys@[i]@ == k2;
                        assert(self.keys@[i]@ == k2);
                    }
                }
            },
        }
    }

    /// Removes the record of `key`, if it has one.
    pub fn remove(&mut self, key: &Vec<u8>)
        requires
            old(self).wf(),
        ensures
            final(self).wf(),
            final(self).view() == old(self).view().remove(key@),
    {
        match self.find(key) {
            Some(i) => {
                let ghost ok = old(self).keys@;
                let ghost or = old(self).records@;
                self.keys.remove(i);
                self.records.remove(i);
                self.claims = Ghost(self.claims@.remove(key@));
                assert forall|a: int, b: int|
                    0 <= a < b < self.keys@.len() implies #[trigger] self.keys@[a]@ != #[trigger] self.keys@[b]@ by {
                    let a0 = if a < i { a } else { a + 1 };
                    let b0 = if b < i { b } else { b + 1 };
                    assert(ok[a0]@ != ok[b0]@);
                }
                assert forall|j: int| 0 <= j < self.keys@.len() implies {
                    &&& self.claims@.contains_key(#[trigger] self.keys@[j]@)
                    &&& self.claims@[self.keys@[j]@] == self.records@[j]
                } by {
                    let j0 = if j < i { j } else { j + 1 };
                    assert(ok[j0]@ != ok[i as int]@);
                    assert(self.keys@[j] == ok[j0]);
                    assert(self.records@[j] == or[j0]);
                }
                assert forall|k2: Seq<u8>| #[trigger] self.claims@.contains_key(k2) implies exists|j: int|
                    0 <= j < self.keys@.len() && #[trigger] self.keys@[j]@ == k2 by {
                    let j0 = choose|j0: int| 0 <= j0 < ok.len() && #[trigger] ok[j0]@ == k2;
                    assert(j0 != i);
                    if j0 < i {
                        assert(self.keys@[j0]@ == k2);
                    } else {
                        assert(self.keys@[j0 - 1]@ == k2);
                    }
                }
            },
            None => {
                assert(self.claims@.remove(key@) =~= self.claims@);
            },
        }
    }
}

} // verus!
