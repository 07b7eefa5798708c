use vstd::prelude::*;

verus! {

/// The state of one call's single-use completion slot.
#[derive(Debug)]
pub enum Slot<R> {
    /// The call waits for its answer.
    Waiting,
    /// The answer is there and not yet handed to the call.
    Filled(R),
    /// The answer has been handed to the call; the slot is spent.
    Delivered,
}

/// The slots after an attempt to fill the slot of `call` with `value`: only
/// a waiting slot takes it.
pub open spec fn fill_step<R>(slots: Seq<Slot<R>>, call: int, value: R) -> Seq<Slot<R>> {
    if 0 <= call < slots.len() && slots[call] is Waiting {
        slots.update(call, Slot::Filled(value))
    } else {
        slots
    }
}

/// The slots after the calls of `order` were answered one after the other,
/// call `order[k]` with `answers[order[k]]`.
pub open spec fn fill_in_order<R>(slots: Seq<Slot<R>>, order: Seq<int>, answers: Seq<R>) -> Seq<
    Slot<R>,
>
    decreases order.len(),
{
    if order.len() == 0 {
        slots
    } else {
        fill_step(
            fill_in_order(slots, order.drop_last(), answers),
            order.last(),
            answers[order.last()],
        )
    }
}

pub open spec fn appears_in(order: Seq<int>, i: int) -> bool {
    exists|k: int| 0 <= k < order.len() && order[k] == i
}

/// Whether `order` names each of the calls `0..n` exactly once.
pub open spec fn is_ordering(order: Seq<int>, n: nat) -> bool {
    &&& order.len() == n
    &&& forall|k: int| 0 <= k < order.len() ==> 0 <= #[trigger] order[k] < n
    &&& forall|i: int| 0 <= i < n ==> #[trigger] appears_in(order, i)
    &&& forall|a: int, b: int| 0 <= a < b < order.len() ==> order[a] != order[b]
}

/// However the answers of `n` waiting calls come in, each slot ends up
/// holding exactly its own call's answer: every call is answered once, and
/// no answer reaches another call.
pub proof fn lemma_each_call_gets_its_answer<R>(
    slots: Seq<Slot<R>>,
    order: Seq<int>,
    answers: Seq<R>,
)
    requires
        forall|i: int| 0 <= i < slots.len() ==> #[trigger] slots[i] is Waiting,
        answers.len() == slots.len(),
        is_ordering(order, slots.len()),
    ensures
        fill_in_order(slots, order, answers).len() == slots.len(),
        forall|i: int|
            0 <= i < slots.len() ==> #[trigger] fill_in_order(slots, order, answers)[i] == Slot::<
                R,
            >::Filled(answers[i]),
{
    lemma_partial_fill(slots, order, answers, order.len() as int);
    assert(order.subrange(0, order.len() as int) =~= order);
    assert forall|i: int| 0 <= i < slots.len() implies #[trigger] fill_in_order(
        slots,
        order,
        answers,
    )[i] == Slot::<R>::Filled(answers[i]) by {
        assert(appears_in(order, i));
        let k = choose|k: int| 0 <= k < order.len() && order[k] == i;
        assert(0 <= k < order.len() && order[k] == i);
    }
}

proof fn lemma_partial_fill<R>(slots: Seq<Slot<R>>, order: Seq<int>, answers: Seq<R>, m: int)
    requires
        forall|i: int| 0 <= i < slots.len() ==> #[trigger] slots[i] is Waiting,
        answers.len() == slots.len(),
        is_ordering(order, slots.len()),
        0 <= m <= order.len(),
    ensures
        ({
            let done = fill_in_order(slots, order.subrange(0, m), answers);
            &&& done.len() == slots.len()
            &&& forall|i: int|
                0 <= i < slots.len() ==> #[trigger] done[i] == if exists|k: int|
                    0 <= k < m && order[k] == i {
                    Slot::Filled(answers[i])
                } else {
                    slots[i]
                }
        }),
    decreases m,
{
    if m == 0 {
        assert(order.subrange(0, 0).len() == 0);
    } else {
        lemma_partial_fill(slots, order, answers, m - 1);
        let prefix = order.subrange(0, m);
        assert(prefix.drop_last() =~= order.subrange(0, m - 1));
        assert(prefix.last() == order[m - 1]);
        let before = fill_in_order(slots, order.subrange(0, m - 1), answers);
        let c = order[m - 1];
        assert(0 <= c < slots.len());
        assert(!exists|k: int| 0 <= k < m - 1 && order[k] == c);
        assert(before[c] == slots[c]);
        let done = fill_in_order(slots, prefix, answers);
        assert(done == before.update(c, Slot::Filled(answers[c])));
        assert forall|i: int| 0 <= i < slots.len() implies #[trigger] done[i] == if exists|k: int|
            0 <= k < m && order[k] == i {
            Slot::Filled(answers[i])
        } else {
            slots[i]
        } by {
            if i == c {
                assert(order[m - 1] == i);
            } else {
                if exists|k: int| 0 <= k < m && order[k] == i {
                    let k = choose|k: int| 0 <= k < m && order[k] == i;
                    assert(k < m - 1);
                }
            }
        }
    }
}

/// One completion slot per call, indexed by the call's number. A slot is
/// filled at most once and its answer is handed out at most once.
pub struct CompletionSlots<R> {
    slots: Vec<Slot<R>>,
}

impl<R> View for CompletionSlots<R> {
    type V = Seq<Slot<R>>;

    closed spec fn view(&self) -> Seq<Slot<R>> {
        self.slots@
    }
}

impl<R> CompletionSlots<R> {
    pub fn new() -> (r: Self)
        ensures
            r@ == Seq::<Slot<R>>::empty(),
    {
        CompletionSlots { slots: Vec::new() }
    }

    pub fn len(&self) -> (r: usize)
        ensures
            r == self@.len(),
    {
        self.slots.len()
    }

    /// Opens the slot of a new call and returns the call's number, or `None`
    /// when no number is left.
    pub fn open(&mut self) -> (r: Option<usize>)
        ensures
            old(self)@.len() < usize::MAX ==> r == Some(old(self)@.len() as usize)
                && final(self)@ == old(self)@.push(Slot::Waiting),
            old(self)@.len() == usize::MAX ==> r is None && final(self)@ == old(self)@,
    {
        if self.slots.len() == usize::MAX {
            return None;
        }
        let call = self.slots.len();
        self.slots.push(Slot::Waiting);
        Some(call)
    }

    /// Whether `call` still waits for its answer.
    pub fn is_waiting(&self, call: usize) -> (r: bool)
        ensures
            r == (call < self@.len() && self@[call as int] is Waiting),
    {
        call < self.slots.len() && match &self.slots[call] {
            Slot::Waiting => true,
            _ => false,
        }
    }

    /// Fills the slot of `call` with `value`. Only a waiting slot takes a
    /// value; otherwise it is handed back and no slot changes.
    pub fn fill(&mut self, call: usize, value: R) -> (r: Result<(), R>)
        ensures
            final(self)@ == fill_step(old(self)@, call as int, value),
            (call < old(self)@.len() && old(self)@[call as int] is Waiting) ==> r is Ok,
            !(call < old(self)@.len() && old(self)@[call as int] is Waiting) ==> r == Err::<(), R>(
                value,
            ),
    {
        if !self.is_waiting(call) {
            return Err(value);
        }
        self.slots.set(call, Slot::Filled(value));
        Ok(())
    }

    /// Hands the answer of `call` over once it is there; the slot is then
    /// spent. Returns `None`, and changes nothing, while the call still waits
    /// or after its answer was handed over.
    pub fn take(&mut self, call: usize) -> (r: Option<R>)
        ensures
            (call < old(self)@.len() && old(self)@[call as int] is Filled) ==> r == Some(
                old(self)@[call as int]->Filled_0,
            ) && final(self)@ == old(self)@.update(call as int, Slot::Delivered),
            !(call < old(self)@.len() && old(self)@[call as int] is Filled) ==> r is None
                && final(self)@ == old(self)@,
    {
        if call >= self.slots.len() {
            return None;
        }
        let filled = match &self.slots[call] {
            Slot::Filled(_) => true,
            _ => false,
        };
        if !filled {
            return None;
        }
        let mut slot = Slot::Delivered;
        self.slots.set_and_swap(call, &mut slot);
        match slot {
            Slot::Filled(value) => Some(value),
            _ => None,
        }
    }
}

} // verus!
