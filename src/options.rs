use vstd::prelude::*;

verus! {

/// Option names mapped to byte values; each name appears once.
pub struct OptionsMap {
    entries: Vec<(String, u8)>,
    contents: Ghost<Map<Seq<char>, u8>>,
}

impl View for OptionsMap {
    type V = Map<Seq<char>, u8>;

    closed spec fn view(&self) -> Map<Seq<char>, u8> {
        self.contents@
    }
}

impl OptionsMap {
    /// The entries agree with the map, and no name is stored twice.
    pub closed spec fn wf(&self) -> bool {
        let e = self.entries@;
        let m = self.contents@;
        &&& forall|i: int|
            0 <= i < e.len() ==> #[trigger] m.contains_key(e[i].0@) && m[e[i].0@] == e[i].1
        &&& forall|k: Seq<char>| #[trigger]
            m.contains_key(k) ==> exists|i: int| 0 <= i < e.len() && (#[trigger] e[i].0@) == k
        &&& forall|i: int, j: int| 0 <= i < j < e.len() ==> e[i].0@ != e[j].0@
        &&& m.dom().finite()
        &&& m.dom().len() == e.len()
    }

    pub fn new() -> (r: OptionsMap)
        ensures
            r.wf(),
            r@ == Map::<Seq<char>, u8>::empty(),
    {
        OptionsMap { entries: Vec::new(), contents: Ghost(Map::empty()) }
    }

    /// Where the entry for `key` is stored, if anywhere.
    fn find(&self, key: &String) -> (r: Option<usize>)
        requires
            self.wf(),
        ensures
            match r {
                Some(i) => i < self.entries@.len() && self.entries@[i as int].0@ == key@,
                None => !self@.contains_key(key@),
            },
    {
        let mut i: usize = 0;
        while i < self.entries.len()
            invariant
                self.wf(),
                i <= self.entries@.len(),
                forall|j: int| 0 <= j < i ==> self.entries@[j].0@ != key@,
            decreases self.entries@.len() - i,
        {
            if self.entries[i].0 == *key {
                return Some(i);
            }
            i = i + 1;
        }
        None
    }

    /// Sets `key` to `value`; a later value for a name replaces the earlier one.
    pub fn insert(&mut self, key: String, value: u8)
        requires
            old(self).wf(),
        ensures
            final(self).wf(),
            final(self)@ == old(self)@.insert(key@, value),
    {
        let ghost m = self.contents@;
        match self.find(&key) {
            Some(i) => {
                let ghost k = key@;
                self.entries.set(i, (key, value));
                self.contents = Ghost(m.insert(k, value));
                assert(m.dom().insert(k) =~= m.dom());
                assert forall|kk: Seq<char>| #[trigger]
                    self.contents@.contains_key(kk) implies exists|j: int|
                    0 <= j < self.entries@.len() && (#[trigger] self.entries@[j].0@) == kk by {
                    if kk != k {
                        let j = choose|j: int|
                            0 <= j < old(self).entries@.len() && (#[trigger] old(
                                self,
                            ).entries@[j].0@) == kk;
                        assert(self.entries@[j].0@ == kk);
                    } else {
                        assert(self.entries@[i as int].0@ == kk);
                    }
                }
            },
            None => {
                let ghost k = key@;
                self.entries.push((key, value));
                self.contents = Ghost(m.insert(k, value));
                assert forall|kk: Seq<char>| #[trigger]
                    self.contents@.contains_key(kk) implies exists|j: int|
                    0 <= j < self.entries@.len() && (#[trigger] self.entries@[j].0@) == kk by {
                    if kk != k {
                        let j = choose|j: int|
                            0 <= j < old(self).entries@.len() && (#[trigger] old(
                                self,
                            ).entries@[j].0@) == kk;
                        assert(self.entries@[j].0@ == kk);
                    } else {
                        assert(self.entries@[self.entries@.len() - 1].0@ == kk);
                    }
                }
            },
        }
    }

    /// The value stored for `key`.
    pub fn get(&self, key: &str) -> (r: Option<u8>)
        requires
            self.wf(),
        ensures
            r == (if self@.contains_key(key@) {
                Some(self@[key@])
            } else {
                None::<u8>
            }),
    {
        let k = key.to_owned();
        match self.find(&k) {
            Some(i) => Some(self.entries[i].1),
            None => None,
        }
    }

    /// The number of names stored.
    pub fn len(&self) -> (r: usize)
        requires
            self.wf(),
        ensures
            r == self@.len(),
    {
        self.entries.len()
    }

    pub fn is_empty(&self) -> (r: bool)
        requires
            self.wf(),
        ensures
            r == (self@.len() == 0),
    {
        self.entries.len() == 0
    }
}

} // verus!
