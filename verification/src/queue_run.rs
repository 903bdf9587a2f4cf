//! What holds of every run over the control queue, whatever the guest sends and the device
//! answers.

use crate::command::{dispatches, Dispatch};
use crate::protocol::{CtrlHdr, GpuCommand, GpuResponse, GpuResult};
use crate::queue::{
    fence_of, fenced, no_fence, ring_of, AfterPop, Chain, FenceFields, QueueStep, VirtioGpuRing,
};
use vstd::prelude::*;

verus! {

/// What a piece of outside work came back with.
pub enum QueueEvent<D> {
    Popped(Option<Chain>),
    Decoded { hdr: CtrlHdr, cmd: GpuCommand, payload: Seq<u8> },
    Undecoded,
    Forced,
    Executed(GpuResult<D>),
    FenceCreated(Result<(), GpuResponse<D>>),
    Encoded(Option<u32>),
    FenceProcessed(bool),
    UsedAdded,
}

/// Whether step `b` follows step `a` when the work of `a` came back with `event`.
pub open spec fn advances<D>(a: QueueStep<D>, event: QueueEvent<D>, b: QueueStep<D>) -> bool {
    match (a, event) {
        (QueueStep::Pop { then }, QueueEvent::Popped(chain)) => b == then.next::<D>(chain),
        (
            QueueStep::Decode { then, .. },
            QueueEvent::Decoded { hdr, cmd, payload },
        ) => then.leads_to(hdr, cmd, payload, b),
        (QueueStep::Decode { then, .. }, QueueEvent::Undecoded) => b == then.next_undecoded::<D>(),
        (QueueStep::ForceContextZero { then }, QueueEvent::Forced) => b == then.next(),
        (QueueStep::Execute { then, .. }, QueueEvent::Executed(result)) => b == then.next(result),
        (QueueStep::CreateFence { then, .. }, QueueEvent::FenceCreated(result)) => b == then.next(
            result,
        ),
        (QueueStep::Encode { then, .. }, QueueEvent::Encoded(written)) => b == then.next::<D>(
            written,
        ),
        (
            QueueStep::ProcessFence { then, .. },
            QueueEvent::FenceProcessed(signaled),
        ) => b == then.next::<D>(signaled),
        (QueueStep::AddUsed { then, .. }, QueueEvent::UsedAdded) => b == then.next::<D>(),
        _ => false,
    }
}

/// A run: the steps in their order, and between each two of them what the work of the first
/// came back with.
pub struct QueueRun<D> {
    pub steps: Seq<QueueStep<D>>,
    pub events: Seq<QueueEvent<D>>,
}

impl<D> QueueRun<D> {
    /// Whether the run starts where draining starts and each step follows the one before it.
    pub open spec fn valid(self) -> bool {
        &&& self.steps.len() == self.events.len() + 1
        &&& self.steps[0] == (QueueStep::<D>::Pop { then: AfterPop { used_any: false } })
        &&& forall|i: int|
            0 <= i < self.events.len() ==> advances(
                self.steps[i],
                #[trigger] self.events[i],
                self.steps[i + 1],
            )
    }

    /// The step that the run has come to.
    pub open spec fn now(self) -> QueueStep<D> {
        self.steps.last()
    }

    /// Whether no chain is in hand.
    pub open spec fn at_rest(self) -> bool {
        self.now() is Pop || self.now() is Done
    }

    /// The heads of the chains that the first `n` events took off the queue, in order.
    pub open spec fn popped(self, n: nat) -> Seq<u16>
        decreases n,
    {
        if n == 0 {
            Seq::empty()
        } else {
            let before = self.popped((n - 1) as nat);
            match self.events[n - 1] {
                QueueEvent::Popped(Some(chain)) => before.push(chain.index),
                _ => before,
            }
        }
    }

    /// Those of them that have room for a response.
    pub open spec fn popped_writable(self, n: nat) -> Seq<u16>
        decreases n,
    {
        if n == 0 {
            Seq::empty()
        } else {
            let before = self.popped_writable((n - 1) as nat);
            match self.events[n - 1] {
                QueueEvent::Popped(Some(chain)) if chain.writable != 0 => before.push(chain.index),
                _ => before,
            }
        }
    }

    /// The heads of the chains that were settled: given back to the guest, or kept by the device
    /// until a fence is signaled.
    pub open spec fn settled(self, n: nat) -> Seq<u16>
        decreases n,
    {
        if n == 0 {
            Seq::empty()
        } else {
            let before = self.settled((n - 1) as nat);
            match (self.steps[n - 1], self.events[n - 1]) {
                (QueueStep::AddUsed { index, .. }, QueueEvent::UsedAdded) => before.push(index),
                (
                    QueueStep::ProcessFence { index, .. },
                    QueueEvent::FenceProcessed(false),
                ) => before.push(index),
                _ => before,
            }
        }
    }

    /// The heads of the chains that a response was written for.
    pub open spec fn responded(self, n: nat) -> Seq<u16>
        decreases n,
    {
        if n == 0 {
            Seq::empty()
        } else {
            let before = self.responded((n - 1) as nat);
            match (self.steps[n - 1], self.events[n - 1]) {
                (QueueStep::Encode { then, .. }, QueueEvent::Encoded(_)) => before.push(then.index),
                _ => before,
            }
        }
    }

    /// The heads of the chains that a fence was created for, or tried to.
    pub open spec fn fences_created(self, n: nat) -> Seq<u16>
        decreases n,
    {
        if n == 0 {
            Seq::empty()
        } else {
            let before = self.fences_created((n - 1) as nat);
            match (self.steps[n - 1], self.events[n - 1]) {
                (QueueStep::CreateFence { then, .. }, QueueEvent::FenceCreated(_)) => before.push(
                    then.index,
                ),
                _ => before,
            }
        }
    }

    /// The heads of the chains that were put before the device with their fence.
    pub open spec fn fences_processed(self, n: nat) -> Seq<u16>
        decreases n,
    {
        if n == 0 {
            Seq::empty()
        } else {
            let before = self.fences_processed((n - 1) as nat);
            match (self.steps[n - 1], self.events[n - 1]) {
                (
                    QueueStep::ProcessFence { index, .. },
                    QueueEvent::FenceProcessed(_),
                ) => before.push(index),
                _ => before,
            }
        }
    }

    /// The length of the response that was written for the chain in hand; zero as long as none
    /// was.
    pub open spec fn written(self, n: nat) -> u32
        decreases n,
    {
        if n == 0 {
            0
        } else {
            match self.events[n - 1] {
                QueueEvent::Popped(_) => 0,
                QueueEvent::Encoded(Some(len)) => len,
                QueueEvent::Encoded(None) => 0,
                _ => self.written((n - 1) as nat),
            }
        }
    }

    /// The header of the command in the chain in hand, where one was decoded.
    pub open spec fn header(self, n: nat) -> Option<CtrlHdr>
        decreases n,
    {
        if n == 0 {
            None
        } else {
            match self.events[n - 1] {
                QueueEvent::Popped(_) => None,
                QueueEvent::Decoded { hdr, .. } => Some(hdr),
                _ => self.header((n - 1) as nat),
            }
        }
    }

    /// The response that is due for the chain in hand. It is an unspecified error as long as
    /// nothing else came of the chain; then the reply that the command comes to by itself, or
    /// the device's response to it; and at last the device's word on a fence that it could not
    /// create.
    pub open spec fn answer(self, n: nat) -> GpuResponse<D>
        decreases n,
    {
        if n == 0 {
            GpuResponse::ErrUnspec
        } else {
            let before = self.answer((n - 1) as nat);
            match (self.steps[n - 1], self.events[n - 1]) {
                (_, QueueEvent::Popped(_)) => GpuResponse::ErrUnspec,
                (QueueStep::ForceContextZero { then }, QueueEvent::Forced) => match then.dispatch {
                    Dispatch::Reply(Ok(response)) => response,
                    Dispatch::Reply(Err(response)) => response,
                    Dispatch::Call(_) => before,
                },
                (_, QueueEvent::Executed(Ok(response))) => response,
                (_, QueueEvent::Executed(Err(response))) => response,
                (_, QueueEvent::FenceCreated(Err(response))) => response,
                _ => before,
            }
        }
    }

    /// Whether one of the first `n` events gave a chain back.
    pub open spec fn gave_back(self, n: nat) -> bool {
        exists|i: int| 0 <= i < n && #[trigger] self.events[i] is UsedAdded
    }
}

/// The head of the chain that a step works on.
spec fn in_hand<D>(step: QueueStep<D>) -> Seq<u16> {
    match step {
        QueueStep::Pop { .. } => Seq::empty(),
        QueueStep::Decode { chain, .. } => seq![chain.index],
        QueueStep::ForceContextZero { then } => seq![then.chain.index],
        QueueStep::Execute { then, .. } => seq![then.chain.index],
        QueueStep::CreateFence { then, .. } => seq![then.index],
        QueueStep::Encode { then, .. } => seq![then.index],
        QueueStep::ProcessFence { index, .. } => seq![index],
        QueueStep::AddUsed { index, .. } => seq![index],
        QueueStep::Done { .. } => Seq::empty(),
    }
}

/// The head of the chain in hand, where its response is still owed.
spec fn owing<D>(step: QueueStep<D>) -> Seq<u16> {
    let owes = match step {
        QueueStep::Decode { chain, .. } => chain.writable != 0,
        QueueStep::ForceContextZero { then } => then.chain.writable != 0,
        QueueStep::Execute { then, .. } => then.chain.writable != 0,
        QueueStep::CreateFence { .. } => true,
        QueueStep::Encode { .. } => true,
        _ => false,
    };
    if owes {
        in_hand(step)
    } else {
        Seq::empty()
    }
}

/// The head of the chain in hand, where its fence is to be put before the device.
spec fn fence_pending<D>(step: QueueStep<D>) -> Seq<u16> {
    match step {
        QueueStep::Encode { then, .. } if fenced(then.fence.flags) => seq![then.index],
        QueueStep::ProcessFence { index, .. } => seq![index],
        _ => Seq::empty(),
    }
}

/// What a step and its continuation agree on, and what the run knows of chains given back.
spec fn step_holds<D>(step: QueueStep<D>, gave_back: bool) -> bool {
    match step {
        QueueStep::Pop { then } => then.used_any == gave_back,
        QueueStep::Decode { chain, then } => then.chain == chain && then.used_any == gave_back,
        QueueStep::ForceContextZero { then } => then.used_any == gave_back,
        QueueStep::Execute { then, .. } => then.used_any == gave_back,
        QueueStep::CreateFence { fence, then } => {
            &&& then.used_any == gave_back
            &&& then.fence == fence
            &&& fenced(fence.flags)
        },
        QueueStep::Encode { fence, then, .. } => {
            &&& then.used_any == gave_back
            &&& then.fence == fence
        },
        QueueStep::ProcessFence { index, len, then, .. } => {
            &&& then.used_any == gave_back
            &&& then.index == index
            &&& then.len == len
        },
        QueueStep::AddUsed { .. } => true,
        QueueStep::Done { used_any } => used_any == gave_back,
    }
}

/// Whether the command in hand asked for this fence.
spec fn asked_for(fence: FenceFields, hdr: Option<CtrlHdr>) -> bool {
    hdr matches Some(h) && fenced(h.flags) && fence == fence_of(h)
}

/// What a step knows of the header and of the length of the response of its chain.
spec fn step_agrees<D>(step: QueueStep<D>, hdr: Option<CtrlHdr>, written: u32) -> bool {
    match step {
        QueueStep::Decode { .. } => hdr is None && written == 0,
        QueueStep::ForceContextZero { then } => hdr == Some(then.hdr) && written == 0,
        QueueStep::Execute { then, .. } => hdr == Some(then.hdr) && written == 0,
        QueueStep::CreateFence { fence, then } => {
            &&& asked_for(fence, hdr)
            &&& then.fence == fence
            &&& written == 0
        },
        QueueStep::Encode { fence, then, .. } => {
            &&& then.fence == fence
            &&& if hdr matches Some(h) && fenced(h.flags) {
                asked_for(fence, hdr)
            } else {
                fence == no_fence()
            }
        },
        QueueStep::ProcessFence { ring, fence_id, len, then, .. } => {
            &&& hdr matches Some(h)
            &&& fenced(h.flags)
            &&& fence_id == h.fence_id
            &&& ring == ring_of(fence_of(h))
            &&& len == written
            &&& then.len == len
        },
        QueueStep::AddUsed { len, .. } => len == written,
        QueueStep::Pop { .. } | QueueStep::Done { .. } => true,
    }
}

proof fn lemma_run_agrees<D>(run: QueueRun<D>, n: nat)
    requires
        run.valid(),
        n <= run.events.len(),
    ensures
        step_agrees(run.steps[n as int], run.header(n), run.written(n)),
    decreases n,
{
    assert(0u32 & crate::protocol::VIRTIO_GPU_FLAG_FENCE == 0) by (bit_vector);
    if n > 0 {
        let m = (n - 1) as nat;
        lemma_run_agrees(run, m);
        assert(advances(run.steps[m as int], run.events[m as int], run.steps[n as int]));
    }
}

/// What a step knows of the response that is due for its chain.
spec fn step_answers<D>(step: QueueStep<D>, answer: GpuResponse<D>) -> bool {
    match step {
        QueueStep::Decode { .. } => answer == GpuResponse::<D>::ErrUnspec,
        QueueStep::CreateFence { then, .. } => answer == then.response,
        QueueStep::Encode { response, .. } => answer == response,
        _ => true,
    }
}

proof fn lemma_run_answers<D>(run: QueueRun<D>, n: nat)
    requires
        run.valid(),
        n <= run.events.len(),
    ensures
        step_answers(run.steps[n as int], run.answer(n)),
    decreases n,
{
    if n > 0 {
        let m = (n - 1) as nat;
        lemma_run_answers(run, m);
        assert(advances(run.steps[m as int], run.events[m as int], run.steps[n as int]));
    }
}

/// What holds after `n` events of a run.
proof fn lemma_run<D>(run: QueueRun<D>, n: nat)
    requires
        run.valid(),
        n <= run.events.len(),
    ensures
        step_holds(run.steps[n as int], run.gave_back(n)),
        run.popped(n) == run.settled(n) + in_hand(run.steps[n as int]),
        run.popped_writable(n) == run.responded(n) + owing(run.steps[n as int]),
        run.fences_created(n) == run.fences_processed(n) + fence_pending(run.steps[n as int]),
    decreases n,
{
    assert(0u32 & crate::protocol::VIRTIO_GPU_FLAG_FENCE == 0) by (bit_vector);
    if n == 0 {
        assert(run.popped(0) =~= run.settled(0) + in_hand(run.steps[0]));
        assert(run.popped_writable(0) =~= run.responded(0) + owing(run.steps[0]));
        assert(run.fences_created(0) =~= run.fences_processed(0) + fence_pending(run.steps[0]));
    } else {
        let m = (n - 1) as nat;
        lemma_run(run, m);
        let a = run.steps[m as int];
        let event = run.events[m as int];
        let b = run.steps[n as int];
        assert(advances(a, event, b));
        assert(run.gave_back(n) == (run.gave_back(m) || event is UsedAdded)) by {
            if event is UsedAdded {
                assert(run.events[m as int] is UsedAdded);
            }
            if run.gave_back(n) && !(event is UsedAdded) {
                let i = choose|i: int| 0 <= i < n && #[trigger] run.events[i] is UsedAdded;
                assert(i < m);
            }
        }
        assert(run.popped(n) =~= run.settled(n) + in_hand(b));
        assert(run.popped_writable(n) =~= run.responded(n) + owing(b));
        assert(run.fences_created(n) =~= run.fences_processed(n) + fence_pending(b));
    }
}

/// Every chain that is taken off the queue is settled exactly once, and in order: when no chain
/// is in hand, the chains given back or kept for their fence are those that were taken.
pub proof fn law_every_chain_is_settled_once<D>(run: QueueRun<D>)
    requires
        run.valid(),
        run.at_rest(),
    ensures
        run.settled(run.events.len()) == run.popped(run.events.len()),
{
    lemma_run(run, run.events.len());
    assert(run.settled(run.events.len()) + Seq::<u16>::empty() =~= run.settled(
        run.events.len(),
    ));
}

/// At any time at most one chain is in hand: the last one taken.
pub proof fn law_one_chain_at_a_time<D>(run: QueueRun<D>)
    requires
        run.valid(),
    ensures
        ({
            let n = run.events.len();
            ||| run.popped(n) == run.settled(n)
            ||| run.popped(n).len() > 0 && run.popped(n).drop_last() == run.settled(n)
        }),
{
    let n = run.events.len();
    lemma_run(run, n);
    if in_hand(run.now()).len() == 0 {
        assert(run.popped(n) =~= run.settled(n));
    } else {
        assert(run.popped(n).drop_last() =~= run.settled(n));
    }
}

/// Every chain with room for a response gets one written exactly once, and no other chain gets
/// any.
pub proof fn law_every_chain_with_room_is_answered_once<D>(run: QueueRun<D>)
    requires
        run.valid(),
        run.at_rest(),
    ensures
        run.responded(run.events.len()) == run.popped_writable(run.events.len()),
{
    lemma_run(run, run.events.len());
    assert(run.responded(run.events.len()) + Seq::<u16>::empty() =~= run.responded(
        run.events.len(),
    ));
}

/// A chain is put before the device with its fence exactly if a fence was created for it, or
/// tried to.
pub proof fn law_fences_are_created_and_processed_together<D>(run: QueueRun<D>)
    requires
        run.valid(),
        run.at_rest(),
    ensures
        run.fences_processed(run.events.len()) == run.fences_created(run.events.len()),
{
    lemma_run(run, run.events.len());
    assert(run.fences_processed(run.events.len()) + Seq::<u16>::empty()
        =~= run.fences_processed(run.events.len()));
}

/// The result tells the truth: a run that ends says that a chain was given back exactly if one
/// was.
pub proof fn law_result_tells_of_chains_given_back<D>(run: QueueRun<D>)
    requires
        run.valid(),
    ensures
        run.now() matches QueueStep::Done { used_any } ==> used_any == run.gave_back(
            run.events.len(),
        ),
{
    lemma_run(run, run.events.len());
}

/// The device makes a call only right after context zero was made the current one.
pub proof fn law_calls_start_in_context_zero<D>(run: QueueRun<D>, i: int)
    requires
        run.valid(),
        0 <= i < run.steps.len(),
        run.steps[i] is Execute,
    ensures
        i > 0,
        run.steps[i - 1] is ForceContextZero,
{
    assert(advances(run.steps[i - 1], run.events[i - 1], run.steps[i - 1 + 1]));
}

/// What is done after context zero is forced, a call or a reply, is what the guest's command
/// comes to with the payload behind it.
pub proof fn law_dispatches_are_what_commands_come_to<D>(run: QueueRun<D>, i: int)
    requires
        run.valid(),
        0 <= i < run.steps.len(),
        run.steps[i] is ForceContextZero,
    ensures
        i >= 1,
        run.steps[i] matches QueueStep::ForceContextZero { then } && run.events[i - 1] matches
            QueueEvent::Decoded { hdr, cmd, payload } && dispatches(
            hdr,
            cmd,
            payload,
            then.dispatch,
        ),
{
    assert(advances(run.steps[i - 1], run.events[i - 1], run.steps[i - 1 + 1]));
}

/// The call that the device makes is the one that the guest's command comes to, with the payload
/// behind it.
pub proof fn law_calls_are_what_commands_come_to<D>(run: QueueRun<D>, i: int)
    requires
        run.valid(),
        0 <= i < run.steps.len(),
        run.steps[i] is Execute,
    ensures
        i >= 2,
        run.steps[i] matches QueueStep::Execute { call, .. } && run.events[i - 2] matches
            QueueEvent::Decoded { hdr, cmd, payload } && dispatches(
            hdr,
            cmd,
            payload,
            Dispatch::<D>::Call(call),
        ),
{
    assert(advances(run.steps[i - 1], run.events[i - 1], run.steps[i - 1 + 1]));
    assert(advances(run.steps[i - 2], run.events[i - 2], run.steps[i - 2 + 1]));
}

/// A chain waits for the fence of its own command: what is put before the device is the fence
/// that the command's header asks for and the length of the response that was written. The
/// fence is on the ring of the header's context that the header names, whichever that is,
/// exactly if the header's second flag is set, and on the global ring exactly if it is not.
pub proof fn law_chains_wait_for_their_own_fence<D>(run: QueueRun<D>, n: nat)
    requires
        run.valid(),
        n < run.steps.len(),
        run.steps[n as int] is ProcessFence,
    ensures
        ({
            &&& run.steps[n as int] matches QueueStep::ProcessFence { ring, fence_id, len, .. }
            &&& run.header(n) matches Some(h)
            &&& h.flags & 1 != 0
            &&& fence_id == h.fence_id
            &&& h.flags & 2 != 0 <==> ring == (VirtioGpuRing::ContextSpecific {
                ctx_id: h.ctx_id,
                ring_idx: h.ring_idx,
            })
            &&& h.flags & 2 == 0 <==> ring == VirtioGpuRing::Global
            &&& len == run.written(n)
        }),
{
    lemma_run_agrees(run, n);
}

/// A response carries the fence of its own command: the header's fields where the header asks
/// for a fence, and zeros otherwise.
pub proof fn law_responses_carry_their_own_fence<D>(run: QueueRun<D>, n: nat)
    requires
        run.valid(),
        n < run.steps.len(),
        run.steps[n as int] is Encode,
    ensures
        ({
            &&& run.steps[n as int] matches QueueStep::Encode { fence, .. }
            &&& (run.header(n) is Some && run.header(n)->0.flags & 1 != 0) ==> {
                &&& fence.flags == run.header(n)->0.flags
                &&& fence.fence_id == run.header(n)->0.fence_id
                &&& fence.ctx_id == run.header(n)->0.ctx_id
                &&& fence.ring_idx == run.header(n)->0.ring_idx
            }
            &&& (run.header(n) is None || run.header(n)->0.flags & 1 == 0) ==> {
                &&& fence.flags == 0
                &&& fence.fence_id == 0
                &&& fence.ctx_id == 0
                &&& fence.ring_idx == 0
            }
        }),
{
    lemma_run_agrees(run, n);
}

/// What is written is the response that is due: an unspecified error for a chain that could not
/// be decoded, else the command's own reply or the device's response to it, and in the place of
/// either the device's word on a fence that it could not create.
pub proof fn law_responses_are_what_is_due<D>(run: QueueRun<D>, n: nat)
    requires
        run.valid(),
        n < run.steps.len(),
        run.steps[n as int] is Encode,
    ensures
        run.steps[n as int] matches QueueStep::Encode { response, .. } && response == run.answer(n),
{
    lemma_run_answers(run, n);
}

/// The guest is told the length that was written: a chain is given back with the length of its
/// response, which is zero where none was written.
pub proof fn law_used_length_is_what_was_written<D>(run: QueueRun<D>, n: nat)
    requires
        run.valid(),
        n < run.steps.len(),
        run.steps[n as int] is AddUsed,
    ensures
        run.steps[n as int] matches QueueStep::AddUsed { len, .. } && len == run.written(n),
{
    lemma_run_agrees(run, n);
}

/// Whether a step has nothing to do with fences, and will not come to have.
spec fn free_of_fences<D>(step: QueueStep<D>) -> bool {
    match step {
        QueueStep::ForceContextZero { then } => !fenced(then.hdr.flags),
        QueueStep::Execute { then, .. } => !fenced(then.hdr.flags),
        QueueStep::Encode { fence, then, .. } => fence == no_fence() && then.fence == no_fence(),
        QueueStep::CreateFence { .. } | QueueStep::ProcessFence { .. } => false,
        _ => true,
    }
}

/// Only a guest that asks for fences can have a chain held back: where no command carries the
/// fence flag, no fence is created, no chain is put before the device, and every response goes
/// out with its fence fields zero.
pub proof fn law_without_fence_flags_no_chain_waits<D>(run: QueueRun<D>, i: int)
    requires
        run.valid(),
        forall|j: int|
            0 <= j < run.events.len() ==> (#[trigger] run.events[j] matches QueueEvent::Decoded {
                hdr,
                ..
            } ==> hdr.flags & 1 == 0),
        0 <= i < run.steps.len(),
    ensures
        !(run.steps[i] is CreateFence),
        !(run.steps[i] is ProcessFence),
        run.steps[i] matches QueueStep::Encode { fence, .. } ==> fence.flags == 0 && fence.fence_id
            == 0 && fence.ctx_id == 0 && fence.ring_idx == 0,
{
    lemma_free_of_fences(run, i);
}

proof fn lemma_free_of_fences<D>(run: QueueRun<D>, i: int)
    requires
        run.valid(),
        forall|j: int|
            0 <= j < run.events.len() ==> (#[trigger] run.events[j] matches QueueEvent::Decoded {
                hdr,
                ..
            } ==> !fenced(hdr.flags)),
        0 <= i < run.steps.len(),
    ensures
        free_of_fences(run.steps[i]),
    decreases i,
{
    assert(0u32 & crate::protocol::VIRTIO_GPU_FLAG_FENCE == 0) by (bit_vector);
    if i > 0 {
        lemma_free_of_fences(run, i - 1);
        assert(advances(run.steps[i - 1], run.events[i - 1], run.steps[i - 1 + 1]));
    }
}

/// How many steps a chain can still take before the next one is due.
pub open spec fn steps_left<D>(step: QueueStep<D>) -> nat {
    match step {
        QueueStep::Decode { .. } => 7,
        QueueStep::ForceContextZero { .. } => 6,
        QueueStep::Execute { .. } => 5,
        QueueStep::CreateFence { .. } => 4,
        QueueStep::Encode { .. } => 3,
        QueueStep::ProcessFence { .. } => 2,
        QueueStep::AddUsed { .. } => 1,
        QueueStep::Pop { .. } | QueueStep::Done { .. } => 0,
    }
}

/// No chain can hold up the queue: every answer of the outside brings a chain nearer to its
/// end, which it reaches within seven steps. Only an empty queue ends the run, and nothing
/// follows that.
pub proof fn law_chains_make_progress<D>(a: QueueStep<D>, event: QueueEvent<D>, b: QueueStep<D>)
    requires
        advances(a, event, b),
    ensures
        !(a is Pop) ==> steps_left(b) < steps_left(a),
        steps_left(b) <= 7,
        b is Done <==> event matches QueueEvent::Popped(None),
        !(a is Done),
{
}

} // verus!
