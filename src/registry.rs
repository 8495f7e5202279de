use vstd::prelude::*;

verus! {

/// What a handle can refer to: a reusable client, or a response body that is
/// waiting to be read.
pub enum Resource<C, B> {
    HttpClient(C),
    HttpBody(B),
}

/// The handle table. Handles are handed out by a counter that only grows, so
/// none is ever handed out twice.
pub struct ResourceTable<C, B> {
    next_rid: u32,
    entries: Vec<(u32, Resource<C, B>)>,
    model: Ghost<Map<u32, Resource<C, B>>>,
}

impl<C, B> View for ResourceTable<C, B> {
    type V = Map<u32, Resource<C, B>>;

    closed spec fn view(&self) -> Map<u32, Resource<C, B>> {
        self.model@
    }
}

impl<C, B> ResourceTable<C, B> {
    /// The handle that the next insertion will hand out.
    pub closed spec fn next_handle(&self) -> nat {
        self.next_rid as nat
    }

    /// The entries match the model, handles are unique, and every live handle
    /// lies below the counter.
    pub closed spec fn wf(&self) -> bool {
        &&& forall|i: int| #![trigger self.entries@[i]]
            0 <= i < self.entries@.len() ==> {
                &&& self.model@.contains_key(self.entries@[i].0)
                &&& self.model@[self.entries@[i].0] == self.entries@[i].1
                &&& self.entries@[i].0 < self.next_rid
            }
        &&& forall|i: int, j: int|
            0 <= i < j < self.entries@.len() ==> self.entries@[i].0 != self.entries@[j].0
        &&& forall|k: u32| #![trigger self.model@.contains_key(k)]
            self.model@.contains_key(k) ==> exists|i: int|
                0 <= i < self.entries@.len() && self.entries@[i].0 == k
    }

    /// Whether an insertion can still get a fresh handle.
    pub open spec fn has_room(&self) -> bool {
        self.next_handle() < u32::MAX
    }

    /// Whether `rid` names a client.
    pub open spec fn is_client(&self, rid: u32) -> bool {
        self@.contains_key(rid) && self@[rid] is HttpClient
    }

    /// Whether `rid` names a response body.
    pub open spec fn is_body(&self, rid: u32) -> bool {
        self@.contains_key(rid) && self@[rid] is HttpBody
    }

    /// Every live handle lies below the counter.
    pub proof fn lemma_live_below_next(&self, rid: u32)
        requires
            self.wf(),
            self@.contains_key(rid),
        ensures
            rid < self.next_handle(),
    {
        let i = choose|i: int| 0 <= i < self.entries@.len() && self.entries@[i].0 == rid;
        assert(self.entries@[i].0 < self.next_rid);
    }

    /// An empty table whose first handle is zero.
    pub fn new() -> (t: Self)
        ensures
            t.wf(),
            t@ == Map::<u32, Resource<C, B>>::empty(),
            t.next_handle() == 0,
    {
        ResourceTable { next_rid: 0, entries: Vec::new(), model: Ghost(Map::empty()) }
    }

    /// Registers `res` under a fresh handle and returns the handle.
    pub fn add(&mut self, res: Resource<C, B>) -> (rid: u32)
        requires
            old(self).wf(),
            old(self).has_room(),
        ensures
            final(self).wf(),
            rid == old(self).next_handle(),
            !old(self)@.contains_key(rid),
            final(self)@ == old(self)@.insert(rid, res),
            final(self).next_handle() == old(self).next_handle() + 1,
    {
        let rid = self.next_rid;
        let ghost old_entries = self.entries@;
        let ghost res_g = res;
        proof {
            if self.model@.contains_key(rid) {
                self.lemma_live_below_next(rid);
            }
        }
        self.entries.push((rid, res));
        self.model = Ghost(self.model@.insert(rid, res_g));
        self.next_rid = rid + 1;
        assert forall|k: u32| #![trigger self.model@.contains_key(k)]
            self.model@.contains_key(k) implies exists|i: int|
                0 <= i < self.entries@.len() && self.entries@[i].0 == k by {
            if k == rid {
                assert(self.entries@[old_entries.len() as int].0 == k);
            } else {
                let i = choose|i: int| 0 <= i < old_entries.len() && old_entries[i].0 == k;
                assert(self.entries@[i].0 == k);
            }
        }
        rid
    }

    /// The position of `rid` among the entries, if it is live.
    fn find(&self, rid: u32) -> (r: Option<usize>)
        requires
            self.wf(),
        ensures
            r is None <==> !self@.contains_key(rid),
            r matches Some(i) ==> i < self.entries@.len() && self.entries@[i as int].0 == rid,
    {
        let mut i: usize = 0;
        while i < self.entries.len()
            invariant
                self.wf(),
                i <= self.entries@.len(),
                forall|j: int| 0 <= j < i ==> self.entries@[j].0 != rid,
            decreases self.entries@.len() - i,
        {
            if self.entries[i].0 == rid {
                return Some(i);
            }
            i = i + 1;
        }
        proof {
            if self.model@.contains_key(rid) {
                let j = choose|j: int| 0 <= j < self.entries@.len() && self.entries@[j].0 == rid;
                assert(self.entries@[j].0 != rid);
            }
        }
        None
    }

    /// The client that `rid` names; `None` where it names nothing or a body.
    pub fn get_client(&self, rid: u32) -> (r: Option<&C>)
        requires
            self.wf(),
        ensures
            r is Some <==> self.is_client(rid),
            r matches Some(c) ==> self@[rid] == Resource::<C, B>::HttpClient(*c),
    {
        match self.find(rid) {
            None => None,
            Some(i) => match &self.entries[i].1 {
                Resource::HttpClient(c) => Some(c),
                Resource::HttpBody(_) => None,
            },
        }
    }

    /// The body that `rid` names; `None` where it names nothing or a client.
    pub fn get_body(&self, rid: u32) -> (r: Option<&B>)
        requires
            self.wf(),
        ensures
            r is Some <==> self.is_body(rid),
            r matches Some(b) ==> self@[rid] == Resource::<C, B>::HttpBody(*b),
    {
        match self.find(rid) {
            None => None,
            Some(i) => match &self.entries[i].1 {
                Resource::HttpClient(_) => None,
                Resource::HttpBody(b) => Some(b),
            },
        }
    }

    /// Whether `rid` names a live resource of either kind.
    pub fn contains(&self, rid: u32) -> (r: bool)
        requires
            self.wf(),
        ensures
            r == self@.contains_key(rid),
    {
        self.find(rid).is_some()
    }

    /// Whether an insertion can still get a fresh handle.
    pub fn can_add(&self) -> (r: bool)
        ensures
            r == self.has_room(),
    {
        self.next_rid < u32::MAX
    }

    /// Takes the resource that `rid` names out of the table. The handle is not
    /// handed out again.
    pub fn remove(&mut self, rid: u32) -> (r: Option<Resource<C, B>>)
        requires
            old(self).wf(),
        ensures
            final(self).wf(),
            r is None <==> !old(self)@.contains_key(rid),
            r matches Some(x) ==> old(self)@[rid] == x,
            final(self)@ == old(self)@.remove(rid),
            final(self).next_handle() == old(self).next_handle(),
    {
        match self.find(rid) {
            None => {
                assert(self.model@.remove(rid) =~= self.model@);
                None
            },
            Some(i) => {
                let ghost old_entries = self.entries@;
                let ghost old_model = self.model@;
                let (_, res) = self.entries.remove(i);
                self.model = Ghost(self.model@.remove(rid));
                assert forall|j: int| #![trigger self.entries@[j]]
                    0 <= j < self.entries@.len() implies {
                        &&& self.model@.contains_key(self.entries@[j].0)
                        &&& self.model@[self.entries@[j].0] == self.entries@[j].1
                        &&& self.entries@[j].0 < self.next_rid
                    } by {
                    if j < i {
                        assert(self.entries@[j] == old_entries[j]);
                        assert(old_entries[j].0 != old_entries[i as int].0);
                    } else {
                        assert(self.entries@[j] == old_entries[j + 1]);
                        assert(old_entries[i as int].0 != old_entries[j + 1].0);
                    }
                }
                assert forall|a: int, b: int|
                    0 <= a < b < self.entries@.len() implies self.entries@[a].0
                        != self.entries@[b].0 by {
                    let oa = if a < i { a } else { a + 1 };
                    let ob = if b < i { b } else { b + 1 };
                    assert(self.entries@[a] == old_entries[oa]);
                    assert(self.entries@[b] == old_entries[ob]);
                }
                assert forall|k: u32| #![trigger self.model@.contains_key(k)]
                    self.model@.contains_key(k) implies exists|j: int|
                        0 <= j < self.entries@.len() && self.entries@[j].0 == k by {
                    let j = choose|j: int| 0 <= j < old_entries.len() && old_entries[j].0 == k;
                    assert(j != i);
                    if j < i {
                        assert(self.entries@[j] == old_entries[j]);
                    } else {
                        assert(self.entries@[j - 1] == old_entries[j]);
                    }
                }
                Some(res)
            },
        }
    }
}

} // verus!
