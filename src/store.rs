use vstd::prelude::*;

verus! {

/// Why a blob was not stored.
#[derive(Clone, Copy, Debug, PartialEq, Eq, Structural)]
pub enum StoreError {
    /// The store cannot take another blob.
    Unavailable,
    /// A blob is already stored under that key; keys are written once.
    KeyExists,
}

/// Blob storage keyed by name, each key written once.
pub struct ObjectStore {
    keys: Vec<String>,
    blobs: Vec<Vec<u8>>,
    capacity: usize,
    contents: Ghost<Map<Seq<char>, Seq<u8>>>,
}

impl View for ObjectStore {
    type V = Map<Seq<char>, Seq<u8>>;

    closed spec fn view(&self) -> Map<Seq<char>, Seq<u8>> {
        self.contents@
    }
}

impl ObjectStore {
    pub closed spec fn wf(&self) -> bool {
        &&& self.keys@.len() == self.blobs@.len()
        &&& forall|i: int|
            0 <= i < self.keys@.len() ==> {
                &&& #[trigger] self.contents@.contains_key(self.keys@[i]@)
                &&& self.contents@[self.keys@[i]@] == self.blobs@[i]@
            }
        &&& forall|k: Seq<char>| #[trigger]
            self.contents@.contains_key(k) ==> exists|i: int|
                0 <= i < self.keys@.len() && #[trigger] self.keys@[i]@ == k
        &&& forall|i: int, j: int|
            0 <= i < self.keys@.len() && 0 <= j < self.keys@.len() && i != j
                ==> #[trigger] self.keys@[i]@ != #[trigger] self.keys@[j]@
    }

    /// No further blob fits.
    pub closed spec fn is_full_spec(&self) -> bool {
        self.keys@.len() >= self.capacity
    }

    /// A store that holds at most `capacity` blobs.
    pub fn new(capacity: usize) -> (r: ObjectStore)
        ensures
            r.wf(),
            r@ == Map::<Seq<char>, Seq<u8>>::empty(),
            r.is_full_spec() <==> capacity == 0,
    {
        ObjectStore {
            keys: Vec::new(),
            blobs: Vec::new(),
            capacity,
            contents: Ghost(Map::empty()),
        }
    }

    pub fn is_full(&self) -> (r: bool)
        ensures
            r == self.is_full_spec(),
    {
        self.keys.len() >= self.capacity
    }

    fn find(&self, key: &String) -> (r: Option<usize>)
        requires
            self.wf(),
        ensures
            match r {
                Some(i) => i < self.keys@.len() && self.keys@[i as int]@ == key@,
                None => !self@.contains_key(key@),
            },
    {
        let mut i: usize = 0;
        while i < self.keys.len()
            invariant
                i <= self.keys@.len(),
                forall|j: int| 0 <= j < i ==> self.keys@[j]@ != key@,
            decreases self.keys@.len() - i,
        {
            if self.keys[i] == *key {
                return Some(i);
            }
            i = i + 1;
        }
        None
    }

    /// Stores `blob` under `key`, unless the store is full or the key taken.
    pub fn put(&mut self, key: String, blob: Vec<u8>) -> (r: Result<(), StoreError>)
        requires
            old(self).wf(),
        ensures
            final(self).wf(),
            old(self).is_full_spec() ==> r == Err::<(), StoreError>(StoreError::Unavailable)
                && final(self)@ == old(self)@ && final(self).is_full_spec(),
            !old(self).is_full_spec() && old(self)@.contains_key(key@) ==> r == Err::<
                (),
                StoreError,
            >(StoreError::KeyExists) && final(self)@ == old(self)@ && !final(self).is_full_spec(),
            !old(self).is_full_spec() && !old(self)@.contains_key(key@) ==> r is Ok
                && final(self)@ == old(self)@.insert(key@, blob@),
    {
        if self.is_full() {
            return Err(StoreError::Unavailable);
        }
        if self.find(&key).is_some() {
            return Err(StoreError::KeyExists);
        }
        let ghost k = key@;
        let ghost b = blob@;
        self.contents = Ghost(self.contents@.insert(k, b));
        self.keys.push(key);
        self.blobs.push(blob);
        proof {
            let n = self.keys@.len() - 1;
            assert forall|i: int| 0 <= i < n implies #[trigger] self.keys@[i]@ != k by {
                assert(old(self).contents@.contains_key(old(self).keys@[i]@));
            }
            assert forall|q: Seq<char>| #[trigger]
                self.contents@.contains_key(q) implies exists|i: int|
                    0 <= i < self.keys@.len() && #[trigger] self.keys@[i]@ == q by {
                if q == k {
                    assert(self.keys@[n as int]@ == q);
                } else {
                    let i = choose|i: int|
                        0 <= i < old(self).keys@.len() && #[trigger] old(self).keys@[i]@ == q;
                    assert(self.keys@[i]@ == q);
                }
            }
        }
        Ok(())
    }

    /// The blob stored under `key`.
    pub fn get(&self, key: &String) -> (r: Option<&Vec<u8>>)
        requires
            self.wf(),
        ensures
            r is Some <==> self@.contains_key(key@),
            r matches Some(b) ==> b@ == self@[key@],
    {
        match self.find(key) {
            Some(i) => {
                proof {
                    assert(self.contents@.contains_key(self.keys@[i as int]@));
                }
                Some(&self.blobs[i])
            },
            None => None,
        }
    }
}

} // verus!
