//! Pipelining several transfers on one endpoint.
//!
//! Completions may arrive from the backend in any order; the queue keeps them
//! and hands them out strictly in submission order.
//!
//! Admission policy: at most `max_pending` transfers may be submitted and not
//! yet retrieved. A submission beyond that is refused and its buffer handed
//! back untouched, so nothing in flight is ever lost.

use vstd::prelude::*;
use super::{Completion, TransferError};
use super::internal::{cancel_forwarded, cancelled_state, TransferHandle, TransferState};

verus! {

/// The result of [`Queue::submit`].
#[derive(Debug)]
pub enum SubmitOutcome<T> {
    /// The buffer is to be handed to the backend as transfer `id`.
    Issued { id: u64, buffer: T },
    /// The device is gone: transfer `id` completed at once with
    /// [`TransferError::Disconnected`] and holds the buffer; it is retrieved
    /// in order like any other.
    Disconnected { id: u64 },
    /// Too many transfers are outstanding; the buffer is handed back and the
    /// queue is unchanged.
    Full(T),
}

/// The states of a sequence of transfers after the backend delivered, for
/// each slot number in `order` in turn, that slot's completion from `cs`.
pub open spec fn deliver_all<T>(
    s: Seq<TransferState<T>>,
    order: Seq<int>,
    cs: Seq<Completion<T>>,
) -> Seq<TransferState<T>>
    decreases order.len(),
{
    if order.len() == 0 {
        s
    } else {
        deliver_all(s.update(order[0], TransferState::Completed(cs[order[0]])), order.drop_first(), cs)
    }
}

/// The completions that successive calls of [`Queue::next_complete`] hand
/// out, until the oldest transfer has none yet.
pub open spec fn drain<T>(s: Seq<TransferState<T>>) -> Seq<Completion<T>>
    decreases s.len(),
{
    if s.len() > 0 && s[0] is Completed {
        seq![s[0]->Completed_0] + drain(s.drop_first())
    } else {
        Seq::empty()
    }
}

proof fn lemma_deliver_all_slots<T>(s: Seq<TransferState<T>>, order: Seq<int>, cs: Seq<Completion<T>>)
    requires
        s.len() == cs.len(),
        forall|k: int| 0 <= k < order.len() ==> 0 <= #[trigger] order[k] < s.len(),
    ensures
        deliver_all(s, order, cs).len() == s.len(),
        forall|i: int|
            0 <= i < s.len() ==> #[trigger] deliver_all(s, order, cs)[i] == if order.contains(i) {
                TransferState::Completed(cs[i])
            } else {
                s[i]
            },
    decreases order.len(),
{
    if order.len() > 0 {
        let s1 = s.update(order[0], TransferState::Completed(cs[order[0]]));
        let rest = order.drop_first();
        assert forall|k: int| 0 <= k < rest.len() implies 0 <= #[trigger] rest[k] < s1.len() by {
            assert(rest[k] == order[k + 1]);
        }
        lemma_deliver_all_slots(s1, rest, cs);
        assert forall|i: int| 0 <= i < s.len() implies order.contains(i) == (i == order[0]
            || rest.contains(i)) by {
            if order.contains(i) && i != order[0] {
                let k = choose|k: int| 0 <= k < order.len() && order[k] == i;
                assert(rest[k - 1] == i);
            }
            if rest.contains(i) {
                let k = choose|k: int| 0 <= k < rest.len() && rest[k] == i;
                assert(order[k + 1] == i);
            }
            if i == order[0] {
                assert(order[0] == i);
            }
        }
    }
}

proof fn lemma_drain_all_completed<T>(cs: Seq<Completion<T>>)
    ensures
        drain(Seq::new(cs.len(), |i: int| TransferState::Completed(cs[i]))) == cs,
    decreases cs.len(),
{
    let s = Seq::new(cs.len(), |i: int| TransferState::Completed(cs[i]));
    if cs.len() > 0 {
        let rest = cs.drop_first();
        lemma_drain_all_completed(rest);
        assert(s.drop_first() =~= Seq::new(rest.len(), |i: int| TransferState::Completed(rest[i])));
        assert(seq![cs[0]] + rest =~= cs);
    } else {
        assert(drain(s) =~= cs);
    }
}

/// Completions are retrieved in submission order whatever order the backend
/// delivers them in: when each of `n` outstanding transfers has received its
/// completion, in any order `order` of delivery (repeats of the same
/// completion included), draining the queue yields the completions of
/// transfers `0..n` in that order.
pub proof fn lemma_fifo_retrieval<T>(s: Seq<TransferState<T>>, order: Seq<int>, cs: Seq<Completion<T>>)
    requires
        s.len() == cs.len(),
        forall|k: int| 0 <= k < order.len() ==> 0 <= #[trigger] order[k] < s.len(),
        forall|i: int| 0 <= i < s.len() ==> #[trigger] order.contains(i),
    ensures
        drain(deliver_all(s, order, cs)) == cs,
{
    lemma_deliver_all_slots(s, order, cs);
    lemma_drain_all_completed(cs);
    assert(deliver_all(s, order, cs) =~= Seq::new(cs.len(), |i: int| TransferState::Completed(cs[i])));
}

/// A queue of transfers on one endpoint, handed out in submission order.
#[derive(Debug)]
pub struct Queue<T> {
    slots: Vec<TransferHandle<T>>,
    first_id: u64,
    max_pending: usize,
    disconnected: bool,
}

impl<T> Queue<T> {
    /// The states of the transfers submitted and not yet retrieved, oldest
    /// first; the one at position `i` has id `first_id() + i`.
    pub closed spec fn states(&self) -> Seq<TransferState<T>> {
        self.slots@.map_values(|h: TransferHandle<T>| h@)
    }

    /// The id of the oldest transfer not yet retrieved.
    pub closed spec fn first_id(&self) -> nat {
        self.first_id as nat
    }

    /// How many transfers may be submitted and not yet retrieved.
    pub closed spec fn max_pending(&self) -> nat {
        self.max_pending as nat
    }

    /// Whether the device was reported gone.
    pub closed spec fn gone(&self) -> bool {
        self.disconnected
    }

    pub closed spec fn wf(&self) -> bool {
        &&& self.slots@.len() <= self.max_pending
        &&& self.first_id + self.slots@.len() <= u64::MAX
    }

    /// Whether a submission is refused.
    pub open spec fn full(&self) -> bool {
        self.states().len() >= self.max_pending() || self.first_id() + self.states().len()
            >= u64::MAX
    }

    /// Whether `id` names a transfer still waiting for its completion.
    pub open spec fn outstanding(&self, id: u64) -> bool {
        &&& self.first_id() <= id < self.first_id() + self.states().len()
        &&& self.states()[id - self.first_id()] is Pending
    }

    /// An empty queue admitting up to `max_pending` transfers at a time.
    pub fn new(max_pending: usize) -> (r: Queue<T>)
        ensures
            r.wf(),
            r.states() == Seq::<TransferState<T>>::empty(),
            r.first_id() == 0,
            r.max_pending() == max_pending,
            !r.gone(),
    {
        let r = Queue { slots: Vec::new(), first_id: 0, max_pending, disconnected: false };
        assert(r.states() =~= Seq::<TransferState<T>>::empty());
        r
    }

    /// The number of transfers submitted and not yet retrieved.
    pub fn pending(&self) -> (r: usize)
        ensures
            r == self.states().len(),
    {
        self.slots.len()
    }

    /// Whether the device was reported gone.
    pub fn is_disconnected(&self) -> (r: bool)
        ensures
            r == self.gone(),
    {
        self.disconnected
    }

    /// Submit a transfer of `buffer`. Refused, with the buffer handed back,
    /// when `max_pending` transfers are outstanding. Once the device is gone
    /// the transfer completes at once with `Disconnected`; otherwise it is
    /// appended as pending and the buffer goes to the backend.
    pub fn submit(&mut self, buffer: T) -> (r: SubmitOutcome<T>)
        requires
            old(self).wf(),
        ensures
            final(self).wf(),
            final(self).first_id() == old(self).first_id(),
            final(self).max_pending() == old(self).max_pending(),
            final(self).gone() == old(self).gone(),
            old(self).full() ==> r == SubmitOutcome::Full(buffer) && final(self).states()
                == old(self).states(),
            !old(self).full() && !old(self).gone() ==> r == (SubmitOutcome::Issued {
                id: (old(self).first_id() + old(self).states().len()) as u64,
                buffer,
            }) && final(self).states() == old(self).states().push(
                TransferState::Pending { cancel_requested: false },
            ),
            !old(self).full() && old(self).gone() ==> r == (SubmitOutcome::<T>::Disconnected {
                id: (old(self).first_id() + old(self).states().len()) as u64,
            }) && final(self).states() == old(self).states().push(
                TransferState::Completed(
                    Completion { data: buffer, status: Err(TransferError::Disconnected) },
                ),
            ),
    {
        let len = self.slots.len();
        if len >= self.max_pending || self.first_id >= u64::MAX - len as u64 {
            return SubmitOutcome::Full(buffer);
        }
        let id = self.first_id + len as u64;
        let ghost before = self.states();
        if self.disconnected {
            let c = Completion { data: buffer, status: Err(TransferError::Disconnected) };
            self.slots.push(TransferHandle::finished(c));
            assert(self.states() =~= before.push(TransferState::Completed(c)));
            SubmitOutcome::Disconnected { id }
        } else {
            self.slots.push(TransferHandle::submitted());
            assert(self.states() =~= before.push(
                TransferState::Pending { cancel_requested: false },
            ));
            SubmitOutcome::Issued { id, buffer }
        }
    }

    /// Whether transfer `id` is still waiting for its completion.
    pub fn is_outstanding(&self, id: u64) -> (r: bool)
        requires
            self.wf(),
        ensures
            r == self.outstanding(id),
    {
        if id < self.first_id || id - self.first_id >= self.slots.len() as u64 {
            return false;
        }
        let i = (id - self.first_id) as usize;
        self.slots[i].is_pending()
    }

    /// Record the completion the backend delivered for transfer `id`. It is
    /// kept until every older transfer has been retrieved.
    pub fn notify(&mut self, id: u64, completion: Completion<T>)
        requires
            old(self).wf(),
            old(self).outstanding(id),
        ensures
            final(self).wf(),
            final(self).first_id() == old(self).first_id(),
            final(self).max_pending() == old(self).max_pending(),
            final(self).gone() == old(self).gone(),
            final(self).states() == old(self).states().update(
                id - old(self).first_id(),
                TransferState::Completed(completion),
            ),
    {
        let i = (id - self.first_id) as usize;
        let ghost before = self.states();
        let ghost c = completion;
        self.slots[i].notify(completion);
        assert(self.states() =~= before.update(i as int, TransferState::Completed(c)));
    }

    /// Retrieve the completion of the oldest transfer, if it has arrived.
    /// Completions of younger transfers are never handed out before it.
    pub fn next_complete(&mut self) -> (r: Option<Completion<T>>)
        requires
            old(self).wf(),
        ensures
            final(self).wf(),
            final(self).max_pending() == old(self).max_pending(),
            final(self).gone() == old(self).gone(),
            old(self).states().len() > 0 && old(self).states()[0] is Completed ==> r == Some(
                old(self).states()[0]->Completed_0,
            ) && final(self).states() == old(self).states().drop_first() && final(self).first_id()
                == old(self).first_id() + 1,
            !(old(self).states().len() > 0 && old(self).states()[0] is Completed) ==> r is None
                && final(self).states() == old(self).states() && final(self).first_id()
                == old(self).first_id(),
    {
        if self.slots.len() == 0 || !self.slots[0].is_complete() {
            return None;
        }
        let ghost before = self.states();
        let mut head = self.slots.remove(0);
        assert(self.states() =~= before.drop_first());
        self.first_id = self.first_id + 1;
        head.take_completion()
    }

    /// Request cancellation of every outstanding transfer. Returns, oldest
    /// first, the ids whose cancellation must be sent to the backend. Each
    /// transfer still completes, and its completion is retrieved in order.
    pub fn cancel_all(&mut self) -> (r: Vec<u64>)
        requires
            old(self).wf(),
        ensures
            final(self).wf(),
            final(self).first_id() == old(self).first_id(),
            final(self).max_pending() == old(self).max_pending(),
            final(self).gone() == old(self).gone(),
            final(self).states() == old(self).states().map_values(
                |s: TransferState<T>| cancelled_state(s),
            ),
            forall|k: int| 0 <= k < r@.len() ==> old(self).first_id() <= #[trigger] r@[k] 
                < old(self).first_id() + old(self).states().len() && cancel_forwarded(
                old(self).states()[r@[k] - old(self).first_id()],
            ),
            forall|k: int, l: int| 0 <= k < l < r@.len() ==> r@[k] < r@[l],
            forall|i: int|
                0 <= i < old(self).states().len() && cancel_forwarded(#[trigger] old(self).states()[i])
                    ==> r@.contains((old(self).first_id() + i) as u64),
    {
        let ghost before = self.states();
        let mut ids: Vec<u64> = Vec::new();
        let n = self.slots.len();
        let mut i: usize = 0;
        while i < n
            invariant
                self.wf(),
                0 <= i <= n,
                n == self.slots@.len(),
                n == before.len(),
                self.first_id() == old(self).first_id(),
                self.max_pending() == old(self).max_pending(),
                self.gone() == old(self).gone(),
                forall|j: int| 0 <= j < i ==> #[trigger] self.states()[j] == cancelled_state(before[j]),
                forall|j: int| i <= j < n ==> #[trigger] self.states()[j] == before[j],
                forall|k: int| 0 <= k < ids@.len() ==> self.first_id() <= #[trigger] ids@[k] < self.first_id() + i
                    && cancel_forwarded(before[ids@[k] - self.first_id()]),
                forall|k: int, l: int| 0 <= k < l < ids@.len() ==> ids@[k] < ids@[l],
                forall|j: int|
                    0 <= j < i && cancel_forwarded(#[trigger] before[j]) ==> ids@.contains(
                        (self.first_id() + j) as u64,
                    ),
            decreases n - i,
        {
            let ghost mid = self.states();
            let ghost ids_before = ids@;
            let forward = self.slots[i].cancel();
            assert(self.states() =~= mid.update(i as int, cancelled_state(mid[i as int])));
            if forward {
                ids.push(self.first_id + i as u64);
                assert forall|j: int|
                    0 <= j < i && cancel_forwarded(#[trigger] before[j]) implies ids@.contains(
                        (self.first_id() + j) as u64,
                    ) by {
                    assert(ids_before.contains((self.first_id() + j) as u64));
                    let k = choose|k: int| 0 <= k < ids_before.len() && ids_before[k] == (self.first_id() + j) as u64;
                    assert(ids@[k] == ids_before[k]);
                }
                assert(ids@[ids@.len() - 1] == (self.first_id() + i) as u64);
            }
            i = i + 1;
        }
        assert(self.states() =~= before.map_values(|s: TransferState<T>| cancelled_state(s)));
        ids
    }

    /// Record that the device is gone. Transfers already handed to the
    /// backend still complete through it (with `Disconnected`); later
    /// submissions complete at once.
    pub fn disconnect(&mut self)
        requires
            old(self).wf(),
        ensures
            final(self).wf(),
            final(self).gone(),
            final(self).states() == old(self).states(),
            final(self).first_id() == old(self).first_id(),
            final(self).max_pending() == old(self).max_pending(),
    {
        self.disconnected = true;
    }
}

} // verus!
