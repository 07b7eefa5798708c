use crate::channel::ActionChannel;
use crate::completion::{fill_step, CompletionSlots, Slot};
use crate::request::{close_outcome, CloseError, RegisterError, RequestRegistry, RequestState};
use vstd::prelude::*;

verus! {

/// How many actions may wait on an interface's channel.
pub const CHANNEL_CAPACITY: usize = 10;

/// One received call waiting to be served: the number of its completion
/// slot, the handle path of its request object (for a cancellable call),
/// and its arguments.
#[derive(Debug)]
pub struct Action<A> {
    pub call: usize,
    pub handle: Option<String>,
    pub args: A,
}

#[derive(Debug, Clone, Copy, PartialEq, Eq, Structural)]
pub enum SubmitError {
    /// The channel holds as many actions as it may.
    Full,
    /// The dispatch side has shut the channel.
    Closed,
    /// No call number is left.
    Exhausted,
}

/// Takes the calls of one interface in the order they were received and
/// answers each through its own completion slot.
pub struct Dispatcher<A, R> {
    channel: ActionChannel<Action<A>>,
    slots: CompletionSlots<R>,
}

impl<A, R> Dispatcher<A, R> {
    /// The actions waiting to be taken, oldest first.
    pub closed spec fn pending(&self) -> Seq<Action<A>> {
        self.channel.items()
    }

    /// The completion slots, one per call received so far.
    pub closed spec fn slots(&self) -> Seq<Slot<R>> {
        self.slots@
    }

    pub closed spec fn is_shut(&self) -> bool {
        self.channel.is_closed()
    }

    pub closed spec fn bound(&self) -> nat {
        self.channel.bound()
    }

    pub closed spec fn wf(&self) -> bool {
        &&& self.channel.wf()
        &&& forall|i: int|
            0 <= i < self.channel.items().len() ==> (#[trigger] self.channel.items()[i]).call
                < self.slots@.len()
    }

    pub fn new(capacity: usize) -> (r: Self)
        ensures
            r.wf(),
            r.pending() == Seq::<Action<A>>::empty(),
            r.slots() == Seq::<Slot<R>>::empty(),
            r.bound() == capacity,
            !r.is_shut(),
    {
        Dispatcher { channel: ActionChannel::new(capacity), slots: CompletionSlots::new() }
    }

    /// Receives a call: opens its completion slot and queues its action.
    /// Returns the call's number, by which its answer is later taken. A full
    /// or shut channel is reported, and then nothing changes.
    pub fn submit(&mut self, handle: Option<String>, args: A) -> (r: Result<usize, SubmitError>)
        requires
            old(self).wf(),
        ensures
            final(self).wf(),
            final(self).bound() == old(self).bound(),
            final(self).is_shut() == old(self).is_shut(),
            old(self).is_shut() ==> r == Err::<usize, SubmitError>(SubmitError::Closed),
            !old(self).is_shut() && old(self).pending().len() >= old(self).bound() ==> r == Err::<
                usize,
                SubmitError,
            >(SubmitError::Full),
            !old(self).is_shut() && old(self).pending().len() < old(self).bound()
                && old(self).slots().len() >= usize::MAX ==> r == Err::<usize, SubmitError>(
                SubmitError::Exhausted,
            ),
            !old(self).is_shut() && old(self).pending().len() < old(self).bound()
                && old(self).slots().len() < usize::MAX ==> r == Ok::<usize, SubmitError>(
                old(self).slots().len() as usize,
            ),
            r is Ok ==> final(self).slots() == old(self).slots().push(Slot::Waiting)
                && final(self).pending() == old(self).pending().push(
                Action { call: r->Ok_0, handle, args },
            ),
            r is Err ==> final(self).slots() == old(self).slots() && final(self).pending() == old(self).pending(),
    {
        if self.channel.is_closed_now() {
            return Err(SubmitError::Closed);
        }
        if self.channel.is_full() {
            return Err(SubmitError::Full);
        }
        if self.slots.len() == usize::MAX {
            return Err(SubmitError::Exhausted);
        }
        let opened = self.slots.open();
        let call = match opened {
            Some(call) => call,
            None => 0,
        };
        let sent = self.channel.try_send(Action { call, handle, args });
        proof {
            assert forall|i: int| 0 <= i < self.channel.items().len() implies (
            #[trigger] self.channel.items()[i]).call < self.slots@.len() by {
                if i < old(self).channel.items().len() {
                    assert(self.channel.items()[i] == old(self).channel.items()[i]);
                }
            }
        }
        match sent {
            Ok(()) => Ok(call),
            Err(_) => Err(SubmitError::Full),
        }
    }

    /// Takes the oldest waiting action, or `None` at once when nothing waits;
    /// it never waits for an action to arrive.
    pub fn poll_next(&mut self) -> (r: Option<Action<A>>)
        requires
            old(self).wf(),
        ensures
            final(self).wf(),
            final(self).bound() == old(self).bound(),
            final(self).is_shut() == old(self).is_shut(),
            final(self).slots() == old(self).slots(),
            old(self).pending().len() == 0 ==> r is None && final(self).pending() == old(self).pending(),
            old(self).pending().len() > 0 ==> r == Some(old(self).pending()[0]) && final(self).pending() == old(self).pending().drop_first(),
            r is Some ==> r->0.call < final(self).slots().len(),
    {
        let r = self.channel.poll_next();
        proof {
            assert forall|i: int| 0 <= i < self.channel.items().len() implies (
            #[trigger] self.channel.items()[i]).call < self.slots@.len() by {
                assert(self.channel.items()[i] == old(self).channel.items()[i + 1]);
            }
            if r is Some {
                assert(old(self).channel.items()[0].call < self.slots@.len());
            }
        }
        r
    }

    /// Refuses every later call; actions already queued are still served.
    pub fn shut(&mut self)
        requires
            old(self).wf(),
        ensures
            final(self).wf(),
            final(self).is_shut(),
            final(self).pending() == old(self).pending(),
            final(self).slots() == old(self).slots(),
            final(self).bound() == old(self).bound(),
    {
        self.channel.close();
    }

    /// Answers `call` with `value`. A slot is filled at most once: a second
    /// answer, or one for an unknown call, is handed back.
    pub fn complete(&mut self, call: usize, value: R) -> (r: Result<(), R>)
        requires
            old(self).wf(),
        ensures
            final(self).wf(),
            final(self).bound() == old(self).bound(),
            final(self).is_shut() == old(self).is_shut(),
            final(self).pending() == old(self).pending(),
            final(self).slots() == fill_step(old(self).slots(), call as int, value),
            (call < old(self).slots().len() && old(self).slots()[call as int] is Waiting) ==> r is Ok,
            !(call < old(self).slots().len() && old(self).slots()[call as int] is Waiting) ==> r
                == Err::<(), R>(value),
    {
        self.slots.fill(call, value)
    }

    /// Hands the answer of `call` to the waiting caller, once it is there.
    pub fn take_response(&mut self, call: usize) -> (r: Option<R>)
        requires
            old(self).wf(),
        ensures
            final(self).wf(),
            final(self).bound() == old(self).bound(),
            final(self).is_shut() == old(self).is_shut(),
            final(self).pending() == old(self).pending(),
            (call < old(self).slots().len() && old(self).slots()[call as int] is Filled) ==> r
                == Some(old(self).slots()[call as int]->Filled_0) && final(self).slots() == old(self).slots().update(call as int, Slot::Delivered),
            !(call < old(self).slots().len() && old(self).slots()[call as int] is Filled) ==> r is None
                && final(self).slots() == old(self).slots(),
    {
        self.slots.take(call)
    }

    /// Whether `call` still waits for its answer.
    pub fn is_waiting(&self, call: usize) -> (r: bool)
        ensures
            r == (call < self.slots().len() && self.slots()[call as int] is Waiting),
    {
        self.slots.is_waiting(call)
    }
}

/// Whether the submission of a call with `handle` and `args` took `pre` to
/// `post` and answered `r`: a call is refused only on a shut or full channel
/// or when call numbers run out, and otherwise gets the next number, a
/// waiting slot and a place at the back of the queue.
pub open spec fn submitted<A, R>(
    pre: Dispatcher<A, R>,
    post: Dispatcher<A, R>,
    handle: Option<String>,
    args: A,
    r: Result<usize, SubmitError>,
) -> bool {
    &&& post.bound() == pre.bound()
    &&& post.is_shut() == pre.is_shut()
    &&& pre.is_shut() ==> r == Err::<usize, SubmitError>(SubmitError::Closed)
    &&& !pre.is_shut() && pre.pending().len() >= pre.bound() ==> r == Err::<usize, SubmitError>(
        SubmitError::Full,
    )
    &&& !pre.is_shut() && pre.pending().len() < pre.bound() && pre.slots().len() >= usize::MAX
        ==> r == Err::<usize, SubmitError>(SubmitError::Exhausted)
    &&& !pre.is_shut() && pre.pending().len() < pre.bound() && pre.slots().len() < usize::MAX
        ==> r == Ok::<usize, SubmitError>(pre.slots().len() as usize)
    &&& r is Ok ==> post.slots() == pre.slots().push(Slot::Waiting) && post.pending()
        == pre.pending().push(Action { call: r->Ok_0, handle, args })
    &&& r is Err ==> post.slots() == pre.slots() && post.pending() == pre.pending()
}

/// A call that is accepted gets a slot of its own: its number is new, its
/// slot waits, and the slots of all earlier calls are left as they were.
pub proof fn lemma_new_call_gets_fresh_slot<A, R>(
    pre: Dispatcher<A, R>,
    post: Dispatcher<A, R>,
    handle: Option<String>,
    args: A,
    call: usize,
)
    requires
        submitted(pre, post, handle, args, Ok(call)),
    ensures
        call == pre.slots().len(),
        post.slots().len() == call + 1,
        post.slots()[call as int] is Waiting,
        forall|i: int| 0 <= i < call ==> post.slots()[i] == pre.slots()[i],
        post.pending().last().call == call,
{
}

/// Whether serving `call` took the slots from `pre` to `post`: a waiting
/// slot of that call is filled, and no other slot changes.
pub open spec fn answered<R>(pre: Seq<Slot<R>>, post: Seq<Slot<R>>, call: int) -> bool {
    &&& post.len() == pre.len()
    &&& forall|i: int| 0 <= i < pre.len() && i != call ==> post[i] == pre[i]
    &&& (0 <= call < pre.len() && pre[call] is Waiting) ==> post[call] is Filled
    &&& !(0 <= call < pre.len() && pre[call] is Waiting) ==> post == pre
}

/// Whether serving a call with `handle` took the registry from `pre` to
/// `post`: the call's request is registered where the path was free, and
/// nothing else changes.
pub open spec fn request_opened(
    pre: RequestRegistry,
    post: RequestRegistry,
    handle: Option<String>,
) -> bool {
    &&& forall|k: Seq<char>|
        (handle is None || k != handle->0@) ==> post.state_of(k) == pre.state_of(k)
    &&& handle is Some ==> post.state_of(handle->0@) == if pre.state_of(handle->0@) is None {
        Some(RequestState::Registered)
    } else {
        pre.state_of(handle->0@)
    }
}

/// Whether a call with `handle` can have its request registered in `reg`:
/// it needs none, or its handle path is free.
pub open spec fn handle_free(reg: RequestRegistry, handle: Option<String>) -> bool {
    handle is None || reg.state_of(handle->0@) is None
}

/// Business logic that can release what an in-flight call holds.
pub trait RequestImpl {
    /// Called when the caller closes the request of a call.
    fn close(&self);
}

/// The state of a request after a Close call on it has been served: a
/// registered request is gone, anything else stays as it was.
pub open spec fn close_call_step(s: Option<RequestState>) -> Option<RequestState> {
    match s {
        Some(RequestState::Registered) => None,
        _ => s,
    }
}

/// Serves a Close call on the request at `handle`: the business logic's
/// `close` runs to its end, then the request object is removed. A second
/// Close, from wherever it comes, finds nothing there.
pub fn serve_close<T: RequestImpl>(imp: &T, registry: &mut RequestRegistry, handle: &String) -> (r:
    Result<(), CloseError>)
    requires
        old(registry).wf(),
    ensures
        final(registry).wf(),
        r == close_outcome(old(registry).state_of(handle@)),
        final(registry).state_of(handle@) == close_call_step(old(registry).state_of(handle@)),
        forall|k: Seq<char>| k != handle@ ==> final(registry).state_of(k) == old(registry).state_of(k),
{
    match registry.begin_close(handle) {
        Err(e) => Err(e),
        Ok(()) => {
            imp.close();
            let _ = registry.finish_close(handle);
            Ok(())
        },
    }
}

/// A Close call that succeeded leaves nothing behind: a second Close on the
/// same handle path, from any caller, fails as not found.
pub proof fn lemma_second_close_not_found(s: Option<RequestState>)
    requires
        close_outcome(s) is Ok,
    ensures
        close_outcome(close_call_step(s)) == Err::<(), CloseError>(CloseError::NotFound),
{
}

/// The request object of one cancellable call, registered at the handle
/// path that the caller chose.
#[derive(Debug)]
pub struct Request {
    handle: String,
}

impl Request {
    pub closed spec fn path(&self) -> Seq<char> {
        self.handle@
    }

    /// Registers the request object at `handle`; refused while another live
    /// request is there.
    pub fn new(registry: &mut RequestRegistry, handle: String) -> (r: Result<Request, RegisterError>)
        requires
            old(registry).wf(),
        ensures
            final(registry).wf(),
            old(registry).state_of(handle@) is Some <==> r is Err,
            r is Ok ==> r->Ok_0.path() == handle@,
            final(registry).state_of(handle@) == if r is Ok {
                Some(RequestState::Registered)
            } else {
                old(registry).state_of(handle@)
            },
            forall|k: Seq<char>| k != handle@ ==> final(registry).state_of(k) == old(registry).state_of(k),
    {
        match registry.register(handle.clone()) {
            Ok(()) => Ok(Request { handle }),
            Err(e) => Err(e),
        }
    }

    /// The handle path of the request.
    pub fn handle(&self) -> (r: &str)
        ensures
            r@ == self.path(),
    {
        self.handle.as_str()
    }

    /// Finishes a Close that has begun on this request and not ended (the
    /// request is `Closing`): the business logic's `close` runs and the
    /// request is removed. Otherwise nothing changes.
    pub fn next<T: RequestImpl>(&self, imp: &T, registry: &mut RequestRegistry)
        requires
            old(registry).wf(),
        ensures
            final(registry).wf(),
            final(registry).state_of(self.path()) == if old(registry).state_of(self.path()) == Some(
                RequestState::Closing,
            ) {
                None
            } else {
                old(registry).state_of(self.path())
            },
            forall|k: Seq<char>|
                k != self.path() ==> final(registry).state_of(k) == old(registry).state_of(k),
    {
        if registry.state(&self.handle) == Some(RequestState::Closing) {
            imp.close();
            let _ = registry.finish_close(&self.handle);
        }
    }
}

} // verus!
