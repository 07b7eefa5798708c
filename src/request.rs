use vstd::prelude::*;

verus! {

/// Where a live request object stands. A request that has been closed is
/// no longer registered at all.
#[derive(Debug, Clone, Copy, PartialEq, Eq, Structural)]
pub enum RequestState {
    /// Addressable; nobody has asked to close it yet.
    Registered,
    /// A Close call is being served: the business logic is releasing it.
    Closing,
}

#[derive(Debug, Clone, Copy, PartialEq, Eq, Structural)]
pub enum RegisterError {
    /// Another live request already occupies the handle path.
    AlreadyRegistered,
}

#[derive(Debug, Clone, Copy, PartialEq, Eq, Structural)]
pub enum CloseError {
    /// No object lives at the handle path (never registered, or closed).
    NotFound,
    /// A Close call for the request is already being served.
    AlreadyClosing,
    /// The request was not asked to close.
    NotClosing,
}

/// What a Close call on a request in state `s` answers.
pub open spec fn close_outcome(s: Option<RequestState>) -> Result<(), CloseError> {
    match s {
        None => Err(CloseError::NotFound),
        Some(RequestState::Registered) => Ok(()),
        Some(RequestState::Closing) => Err(CloseError::AlreadyClosing),
    }
}

/// The state a request moves to when a Close call on it begins.
pub open spec fn begin_close_step(s: Option<RequestState>) -> Option<RequestState> {
    match s {
        Some(RequestState::Registered) => Some(RequestState::Closing),
        _ => s,
    }
}

/// What finishing a Close answers on a request in state `s`.
pub open spec fn finish_outcome(s: Option<RequestState>) -> Result<(), CloseError> {
    match s {
        None => Err(CloseError::NotFound),
        Some(RequestState::Registered) => Err(CloseError::NotClosing),
        Some(RequestState::Closing) => Ok(()),
    }
}

/// The state a request moves to when the business logic has released it.
pub open spec fn finish_close_step(s: Option<RequestState>) -> Option<RequestState> {
    match s {
        Some(RequestState::Closing) => None,
        _ => s,
    }
}

struct Registration {
    handle: String,
    state: RequestState,
}

/// The request objects that are live, each at its own handle path.
pub struct RequestRegistry {
    entries: Vec<Registration>,
}

impl RequestRegistry {
    pub closed spec fn wf(&self) -> bool {
        forall|i: int, j: int|
            0 <= i < self.entries@.len() && 0 <= j < self.entries@.len() && i != j
                ==> self.entries@[i].handle@ != self.entries@[j].handle@
    }

    spec fn holds_at(&self, h: Seq<char>, i: int) -> bool {
        0 <= i < self.entries@.len() && self.entries@[i].handle@ == h
    }

    /// The state of the request registered at handle path `h`, if any.
    pub closed spec fn state_of(&self, h: Seq<char>) -> Option<RequestState> {
        if exists|i: int| self.holds_at(h, i) {
            Some(self.entries@[choose|i: int| self.holds_at(h, i)].state)
        } else {
            None
        }
    }

    /// The number of live requests.
    pub closed spec fn count(&self) -> nat {
        self.entries@.len()
    }

    proof fn lemma_state_at(&self, h: Seq<char>, i: int)
        requires
            self.wf(),
            self.holds_at(h, i),
        ensures
            self.state_of(h) == Some(self.entries@[i].state),
    {
        let j = choose|j: int| self.holds_at(h, j);
        assert(self.holds_at(h, j));
    }

    pub fn new() -> (r: Self)
        ensures
            r.wf(),
            r.count() == 0,
            forall|h: Seq<char>| r.state_of(h) is None,
    {
        RequestRegistry { entries: Vec::new() }
    }

    pub fn len(&self) -> (r: usize)
        ensures
            r == self.count(),
    {
        self.entries.len()
    }

    fn find(&self, handle: &String) -> (r: Option<usize>)
        requires
            self.wf(),
        ensures
            r is Some ==> self.holds_at(handle@, r->0 as int) && self.state_of(handle@) == Some(
                self.entries@[r->0 as int].state,
            ),
            r is None ==> self.state_of(handle@) is None,
    {
        let mut i: usize = 0;
        while i < self.entries.len()
            invariant
                self.wf(),
                i <= self.entries@.len(),
                forall|j: int| 0 <= j < i ==> !self.holds_at(handle@, j),
            decreases self.entries@.len() - i,
        {
            if self.entries[i].handle == *handle {
                proof {
                    self.lemma_state_at(handle@, i as int);
                }
                return Some(i);
            }
            i = i + 1;
        }
        None
    }

    /// The state of the request at `handle`, or `None` where no object lives.
    pub fn state(&self, handle: &String) -> (r: Option<RequestState>)
        requires
            self.wf(),
        ensures
            r == self.state_of(handle@),
    {
        match self.find(handle) {
            Some(i) => Some(self.entries[i].state),
            None => None,
        }
    }

    /// Registers a request at `handle`. Refused while another live request
    /// is at the same path.
    pub fn register(&mut self, handle: String) -> (r: Result<(), RegisterError>)
        requires
            old(self).wf(),
        ensures
            final(self).wf(),
            old(self).state_of(handle@) is Some ==> r == Err::<(), RegisterError>(
                RegisterError::AlreadyRegistered,
            ) && final(self).state_of(handle@) == old(self).state_of(handle@),
            old(self).state_of(handle@) is None ==> r is Ok && final(self).state_of(handle@)
                == Some(RequestState::Registered),
            forall|k: Seq<char>| k != handle@ ==> final(self).state_of(k) == old(self).state_of(k),
    {
        let ghost pre = *self;
        let ghost h = handle@;
        if self.find(&handle).is_some() {
            return Err(RegisterError::AlreadyRegistered);
        }
        let n = self.entries.len();
        self.entries.push(Registration { handle, state: RequestState::Registered });
        proof {
            assert(!exists|j: int| pre.holds_at(h, j));
            assert forall|a: int, b: int|
                0 <= a < self.entries@.len() && 0 <= b < self.entries@.len() && a != b
                    implies self.entries@[a].handle@ != self.entries@[b].handle@ by {
                if a == n {
                    assert(!pre.holds_at(h, b));
                } else if b == n {
                    assert(!pre.holds_at(h, a));
                }
            }
            assert(self.holds_at(h, n as int));
            self.lemma_state_at(h, n as int);
            assert forall|k: Seq<char>| k != h implies self.state_of(k) == pre.state_of(k) by {
                if exists|i: int| pre.holds_at(k, i) {
                    let i = choose|i: int| pre.holds_at(k, i);
                    pre.lemma_state_at(k, i);
                    assert(self.holds_at(k, i));
                    self.lemma_state_at(k, i);
                } else {
                    if exists|i: int| self.holds_at(k, i) {
                        let i = choose|i: int| self.holds_at(k, i);
                        assert(pre.holds_at(k, i));
                    }
                }
            }
        }
        Ok(())
    }

    fn set_state(&mut self, i: usize, state: RequestState)
        requires
            old(self).wf(),
            i < old(self).entries@.len(),
        ensures
            final(self).wf(),
            final(self).state_of(old(self).entries@[i as int].handle@) == Some(state),
            forall|k: Seq<char>|
                k != old(self).entries@[i as int].handle@ ==> final(self).state_of(k) == old(self).state_of(k),
    {
        let ghost pre = *self;
        let mut entry = Registration { handle: String::new(), state };
        self.entries.set_and_swap(i, &mut entry);
        entry.state = state;
        self.entries.set_and_swap(i, &mut entry);
        proof {
            let h = pre.entries@[i as int].handle@;
            assert(self.entries@ == pre.entries@.update(
                i as int,
                Registration { handle: pre.entries@[i as int].handle, state },
            ));
            assert(self.holds_at(h, i as int));
            self.lemma_state_at(h, i as int);
            assert forall|k: Seq<char>| k != h implies self.state_of(k) == pre.state_of(k) by {
                if exists|j: int| pre.holds_at(k, j) {
                    let j = choose|j: int| pre.holds_at(k, j);
                    pre.lemma_state_at(k, j);
                    assert(self.holds_at(k, j));
                    self.lemma_state_at(k, j);
                } else {
                    if exists|j: int| self.holds_at(k, j) {
                        let j = choose|j: int| self.holds_at(k, j);
                        assert(pre.holds_at(k, j));
                    }
                }
            }
        }
    }

    /// Starts serving a Close call on the request at `handle`: a registered
    /// request moves to `Closing`. Nothing changes on an error.
    pub fn begin_close(&mut self, handle: &String) -> (r: Result<(), CloseError>)
        requires
            old(self).wf(),
        ensures
            final(self).wf(),
            r == close_outcome(old(self).state_of(handle@)),
            final(self).state_of(handle@) == begin_close_step(old(self).state_of(handle@)),
            forall|k: Seq<char>| k != handle@ ==> final(self).state_of(k) == old(self).state_of(k),
    {
        match self.find(handle) {
            None => Err(CloseError::NotFound),
            Some(i) => {
                if self.entries[i].state == RequestState::Closing {
                    Err(CloseError::AlreadyClosing)
                } else {
                    self.set_state(i, RequestState::Closing);
                    Ok(())
                }
            },
        }
    }

    /// Ends a Close call once the business logic has released the request:
    /// the object at `handle` is removed, so that the path resolves to
    /// nothing from then on. Nothing changes on an error.
    pub fn finish_close(&mut self, handle: &String) -> (r: Result<(), CloseError>)
        requires
            old(self).wf(),
        ensures
            final(self).wf(),
            r == finish_outcome(old(self).state_of(handle@)),
            final(self).state_of(handle@) == finish_close_step(old(self).state_of(handle@)),
            forall|k: Seq<char>| k != handle@ ==> final(self).state_of(k) == old(self).state_of(k),
    {
        let ghost pre = *self;
        let ghost h = handle@;
        match self.find(handle) {
            None => Err(CloseError::NotFound),
            Some(i) => {
                if self.entries[i].state == RequestState::Registered {
                    return Err(CloseError::NotClosing);
                }
                let _gone = self.entries.remove(i);
                proof {
                    assert forall|a: int, b: int|
                        0 <= a < self.entries@.len() && 0 <= b < self.entries@.len() && a != b
                            implies self.entries@[a].handle@ != self.entries@[b].handle@ by {
                        let pa = if a < i { a } else { a + 1 };
                        let pb = if b < i { b } else { b + 1 };
                        assert(self.entries@[a] == pre.entries@[pa]);
                        assert(self.entries@[b] == pre.entries@[pb]);
                    }
                    assert forall|k: Seq<char>| k != h implies self.state_of(k) == pre.state_of(
                        k,
                    ) by {
                        if exists|j: int| pre.holds_at(k, j) {
                            let j = choose|j: int| pre.holds_at(k, j);
                            pre.lemma_state_at(k, j);
                            assert(j != i);
                            let nj = if j < i { j } else { j - 1 };
                            assert(self.entries@[nj] == pre.entries@[j]);
                            assert(self.holds_at(k, nj));
                            self.lemma_state_at(k, nj);
                        } else {
                            if exists|j: int| self.holds_at(k, j) {
                                let j = choose|j: int| self.holds_at(k, j);
                                let pj = if j < i { j } else { j + 1 };
                                assert(self.entries@[j] == pre.entries@[pj]);
                                assert(pre.holds_at(k, pj));
                            }
                        }
                    }
                    if exists|j: int| self.holds_at(h, j) {
                        let j = choose|j: int| self.holds_at(h, j);
                        let pj = if j < i { j } else { j + 1 };
                        assert(self.entries@[j] == pre.entries@[pj]);
                        assert(pre.holds_at(h, pj));
                    }
                }
                Ok(())
            },
        }
    }
}

} // verus!
