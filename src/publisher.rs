use vstd::prelude::*;
use crate::text::{chars_equal, chars_of};

verus! {

/// The sinks that progress events of each session are sent to, one per
/// session id.
pub struct SessionRegistry<S> {
    entries: Vec<(String, S)>,
    map: Ghost<Map<Seq<char>, S>>,
}

impl<S> View for SessionRegistry<S> {
    type V = Map<Seq<char>, S>;

    closed spec fn view(&self) -> Map<Seq<char>, S> {
        self.map@
    }
}


impl<S> SessionRegistry<S> {
    pub closed spec fn wf(&self) -> bool {
        let e = self.entries@;
        &&& forall|i: int, j: int| 0 <= i < j < e.len() ==> (#[trigger] e[i]).0@ != (#[trigger] e[j]).0@
        &&& forall|i: int| 0 <= i < e.len() ==> #[trigger] self.map@.contains_key(e[i].0@)
            && self.map@[e[i].0@] == e[i].1
        &&& forall|k: Seq<char>| #[trigger] self.map@.contains_key(k) ==> exists|i: int| 0 <= i < e.len() && (#[trigger] e[i]).0@ == k
    }

    pub fn new() -> (r: Self)
        ensures
            r.wf(),
            r@ == Map::<Seq<char>, S>::empty(),
    {
        SessionRegistry { entries: Vec::new(), map: Ghost(Map::empty()) }
    }

    /// The index of the entry of `session`, if there is one.
    fn position(&self, session: &str) -> (r: Option<usize>)
        requires
            self.wf(),
        ensures
            r matches Some(i) ==> i < self.entries@.len() && self.entries@[i as int].0@ == session@,
            r is None ==> !self@.contains_key(session@),
    {
        let key = chars_of(session);
        let mut i: usize = 0;
        while i < self.entries.len()
            invariant
                self.wf(),
                i <= self.entries@.len(),
                key@ == session@,
                forall|j: int| 0 <= j < i ==> (#[trigger] self.entries@[j]).0@ != session@,
            decreases self.entries@.len() - i,
        {
            let k = chars_of(self.entries[i].0.as_str());
            if chars_equal(&k, &key) {
                return Some(i);
            }
            i = i + 1;
        }
        None
    }

    /// Registers `sink` for `session`, in place of any sink it had.
    pub fn register(&mut self, session: String, sink: S)
        requires
            old(self).wf(),
        ensures
            final(self).wf(),
            final(self)@ == old(self)@.insert(session@, sink),
    {
        let ghost key = session@;
        match self.position(session.as_str()) {
            Some(i) => {
                let ghost old_entries = self.entries@;
                self.entries.remove(i);
                proof {
                    assert forall|j: int| 0 <= j < self.entries@.len() implies (#[trigger] self.entries@[j]).0@ != key by {
                        if j < i {
                            assert(self.entries@[j] == old_entries[j]);
                        } else {
                            assert(self.entries@[j] == old_entries[j + 1]);
                        }
                    }
                }
                self.entries.push((session, sink));
                self.map = Ghost(self.map@.insert(key, self.entries@.last().1));
                proof {
                    let e = self.entries@;
                    assert forall|k: Seq<char>| #[trigger] self.map@.contains_key(k) implies exists|j: int| 0 <= j < e.len() && (#[trigger] e[j]).0@ == k by {
                        if k == key {
                            assert(e[e.len() - 1].0@ == k);
                        } else {
                            let w = choose|w: int| 0 <= w < old_entries.len() && (#[trigger] old_entries[w]).0@ == k;
                            if w < i {
                                assert(e[w] == old_entries[w]);
                            } else {
                                assert(w != i);
                                assert(e[w - 1] == old_entries[w]);
                            }
                        }
                    }
                    assert forall|a: int| 0 <= a < e.len() implies #[trigger] self.map@.contains_key(e[a].0@)
                        && self.map@[e[a].0@] == e[a].1 by {
                        if a < e.len() - 1 {
                            if a < i {
                                assert(e[a] == old_entries[a]);
                            } else {
                                assert(e[a] == old_entries[a + 1]);
                            }
                        }
                    }
                    assert forall|a: int, b: int| 0 <= a < b < e.len() implies (#[trigger] e[a]).0@ != (#[trigger] e[b]).0@ by {
                        if b < e.len() - 1 {
                            let oa = if a < i { a } else { a + 1 };
                            let ob = if b < i { b } else { b + 1 };
                            assert(e[a] == old_entries[oa]);
                            assert(e[b] == old_entries[ob]);
                        }
                    }
                }
            },
            None => {
                let ghost old_entries = self.entries@;
                self.entries.push((session, sink));
                self.map = Ghost(self.map@.insert(key, self.entries@.last().1));
                proof {
                    let e = self.entries@;
                    assert forall|k: Seq<char>| #[trigger] self.map@.contains_key(k) implies exists|j: int| 0 <= j < e.len() && (#[trigger] e[j]).0@ == k by {
                        if k == key {
                            assert(e[e.len() - 1].0@ == k);
                        } else {
                            let w = choose|w: int| 0 <= w < old_entries.len() && (#[trigger] old_entries[w]).0@ == k;
                            assert(e[w] == old_entries[w]);
                        }
                    }
                    assert forall|a: int| 0 <= a < e.len() implies #[trigger] self.map@.contains_key(e[a].0@)
                        && self.map@[e[a].0@] == e[a].1 by {
                        if a < e.len() - 1 {
                            assert(e[a] == old_entries[a]);
                        }
                    }
                    assert forall|a: int, b: int| 0 <= a < b < e.len() implies (#[trigger] e[a]).0@ != (#[trigger] e[b]).0@ by {
                        if b == e.len() - 1 {
                            assert(e[a] == old_entries[a]);
                            assert(old_entries[a].0@ != key);
                        } else {
                            assert(e[a] == old_entries[a]);
                            assert(e[b] == old_entries[b]);
                        }
                    }
                }
            },
        }
        assert(self.map@.insert(key, sink) == old(self)@.insert(key, sink));
    }

    /// Removes the sink of `session`, if it has one.
    pub fn unregister(&mut self, session: &str)
        requires
            old(self).wf(),
        ensures
            final(self).wf(),
            final(self)@ == old(self)@.remove(session@),
    {
        let ghost key = session@;
        match self.position(session) {
            Some(i) => {
                let ghost old_entries = self.entries@;
                self.entries.remove(i);
                self.map = Ghost(self.map@.remove(key));
                proof {
                    let e = self.entries@;
                    assert forall|k: Seq<char>| #[trigger] self.map@.contains_key(k) implies exists|j: int| 0 <= j < e.len() && (#[trigger] e[j]).0@ == k by {
                        let w = choose|w: int| 0 <= w < old_entries.len() && (#[trigger] old_entries[w]).0@ == k;
                        if w < i {
                            assert(e[w] == old_entries[w]);
                        } else {
                            assert(w != i);
                            assert(e[w - 1] == old_entries[w]);
                        }
                    }
                    assert forall|a: int| 0 <= a < e.len() implies #[trigger] self.map@.contains_key(e[a].0@)
                        && self.map@[e[a].0@] == e[a].1 by {
                        let oa = if a < i { a } else { a + 1 };
                        assert(e[a] == old_entries[oa]);
                        assert(oa != i);
                        if oa < i {
                            assert(old_entries[oa].0@ != old_entries[i as int].0@);
                        } else {
                            assert(old_entries[i as int].0@ != old_entries[oa].0@);
                        }
                        assert(old(self)@.contains_key(old_entries[oa].0@));
                    }
                    assert forall|a: int, b: int| 0 <= a < b < e.len() implies (#[trigger] e[a]).0@ != (#[trigger] e[b]).0@ by {
                        let oa = if a < i { a } else { a + 1 };
                        let ob = if b < i { b } else { b + 1 };
                        assert(e[a] == old_entries[oa]);
                        assert(e[b] == old_entries[ob]);
                    }
                }
            },
            None => {
                assert(self.map@.remove(key) =~= self.map@);
            },
        }
    }

    /// The sink of `session`, if one is registered.
    pub fn sink_for(&self, session: &str) -> (r: Option<&S>)
        requires
            self.wf(),
        ensures
            r matches Some(s) ==> self@.contains_key(session@) && *s == self@[session@],
            r is None ==> !self@.contains_key(session@),
    {
        match self.position(session) {
            Some(i) => {
                assert(self.map@.contains_key(self.entries@[i as int].0@));
                Some(&self.entries[i].1)
            },
            None => None,
        }
    }

    pub fn len(&self) -> (r: usize)
        requires
            self.wf(),
        ensures
            r == self@.dom().len(),
    {
        proof {
            self.lemma_len();
        }
        self.entries.len()
    }

    proof fn lemma_len(&self)
        requires
            self.wf(),
        ensures
            self.entries@.len() == self@.dom().len(),
    {
        let e = self.entries@;
        let keys = Seq::new(e.len(), |i: int| e[i].0@);
        assert(keys.no_duplicates());
        assert(keys.to_set() =~= self@.dom()) by {
            assert forall|k: Seq<char>| self@.dom().contains(k) implies keys.to_set().contains(k) by {
                let w = choose|w: int| 0 <= w < e.len() && (#[trigger] e[w]).0@ == k;
                assert(keys[w] == k);
            }
            assert forall|k: Seq<char>| keys.to_set().contains(k) implies self@.dom().contains(k) by {
                let w = choose|w: int| 0 <= w < keys.len() && keys[w] == k;
                assert(self@.contains_key(e[w].0@));
            }
        }
        keys.unique_seq_to_set();
    }
}

} // verus!
