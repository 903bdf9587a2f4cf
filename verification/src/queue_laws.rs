//! What each piece of outside work leads to while the control queue is drained, in the fields
//! of what came in.
//!
//! Each law speaks of what one continuation gives for one answer of the outside, and of nothing
//! in between. The first flag of a header asks for a fence, the second one puts it on a ring of
//! the header's context.

use crate::command::{bytes_read, dispatches, Dispatch};
use crate::protocol::{CtrlHdr, GpuCommand, GpuResponse, GpuResult};
use crate::queue::{
    process_queue, AfterAddUsed, AfterDecode, AfterEncode, AfterExecute, AfterFence, AfterForce,
    AfterPop, AfterProcessFence, Chain, QueueStep, VirtioGpuRing,
};
use crate::reader::Reader;
use vstd::prelude::*;

verus! {

/// Draining starts with taking a chain, and with none given back.
pub proof fn law_draining_starts_with_a_pop<D>(r: QueueStep<D>)
    requires
        call_ensures(process_queue::<D>, (), r),
    ensures
        r matches QueueStep::Pop { then } && !then.used_any,
{
}

/// A chain that came off the queue is decoded, the same chain; an empty queue ends the run, with
/// the word on chains given back that the run had come to.
pub proof fn law_popped_chains_are_decoded<D>(
    then: AfterPop,
    chain: Option<Chain>,
    r: QueueStep<D>,
)
    requires
        call_ensures(AfterPop::popped::<D>, (then, chain), r),
    ensures
        match chain {
            Some(c) => {
                &&& r matches QueueStep::Decode { chain: to_decode, then: next }
                &&& to_decode.index == c.index
                &&& to_decode.writable == c.writable
                &&& next.chain.index == c.index
                &&& next.chain.writable == c.writable
                &&& next.used_any == then.used_any
            },
            None => r matches QueueStep::Done { used_any } && used_any == then.used_any,
        },
{
}

/// A decoded command goes on under its own header, with what it comes to and the payload behind
/// it, in its own chain.
pub proof fn law_decoded_commands_go_on<D>(
    then: AfterDecode,
    hdr: CtrlHdr,
    cmd: GpuCommand,
    reader: &mut Reader,
    r: QueueStep<D>,
)
    requires
        call_ensures(AfterDecode::decoded::<D>, (then, hdr, cmd, reader), r),
    ensures
        ({
            &&& r matches QueueStep::ForceContextZero { then: next }
            &&& next.hdr.flags == hdr.flags
            &&& next.hdr.fence_id == hdr.fence_id
            &&& next.hdr.ctx_id == hdr.ctx_id
            &&& next.hdr.ring_idx == hdr.ring_idx
            &&& next.chain.index == then.chain.index
            &&& next.chain.writable == then.chain.writable
            &&& next.used_any == then.used_any
            &&& dispatches(hdr, cmd, old(reader)@, next.dispatch)
        }),
        final(reader)@ == old(reader)@.skip(bytes_read(cmd, old(reader)@.len())),
{
}

/// A chain that cannot be decoded is answered with an unspecified error and no fence, where it
/// has room for an answer, and is given back as it is where it has none.
pub proof fn law_undecoded_chains_are_refused<D>(then: AfterDecode, r: QueueStep<D>)
    requires
        call_ensures(AfterDecode::undecoded::<D>, (then,), r),
    ensures
        then.chain.writable == 0 ==> (r matches QueueStep::AddUsed { index, len, .. } && index
            == then.chain.index && len == 0),
        then.chain.writable > 0 ==> {
            &&& r matches QueueStep::Encode { response, fence, then: next }
            &&& response == GpuResponse::<D>::ErrUnspec
            &&& fence.flags == 0
            &&& fence.fence_id == 0
            &&& fence.ctx_id == 0
            &&& fence.ring_idx == 0
            &&& next.fence == fence
            &&& next.index == then.chain.index
            &&& next.used_any == then.used_any
        },
{
}

/// Once context zero is forced, the call that the command came to is made, the same call. A reply
/// leads where the same response of the device would lead.
pub proof fn law_forced_commands_are_run<D>(
    then: AfterForce<D>,
    r: QueueStep<D>,
    executed: AfterExecute,
    result: GpuResult<D>,
    other: QueueStep<D>,
)
    requires
        call_ensures(AfterForce::<D>::forced, (then,), r),
        executed.chain == then.chain,
        executed.hdr == then.hdr,
        executed.used_any == then.used_any,
        call_ensures(AfterExecute::executed::<D>, (executed, result), other),
    ensures
        then.dispatch matches Dispatch::Call(call) ==> {
            &&& r matches QueueStep::Execute { call: made, then: next }
            &&& made == call
            &&& next.chain == then.chain
            &&& next.hdr == then.hdr
            &&& next.used_any == then.used_any
        },
        then.dispatch matches Dispatch::Reply(reply) ==> (reply == result ==> r == other),
{
}

/// The response of the device is what the guest gets, whether the call succeeded or failed. It
/// is lost only where the chain has no room for it. Where the header asks for a fence, one with
/// the header's fields is created first, and where it does not, the response goes out with
/// its fence fields zero.
pub proof fn law_executed_commands_are_answered<D>(
    then: AfterExecute,
    response: GpuResponse<D>,
    result: GpuResult<D>,
    r: QueueStep<D>,
)
    requires
        result == Ok::<GpuResponse<D>, GpuResponse<D>>(response) || result == Err::<
            GpuResponse<D>,
            GpuResponse<D>,
        >(response),
        call_ensures(AfterExecute::executed::<D>, (then, result), r),
    ensures
        then.chain.writable == 0 ==> (r matches QueueStep::AddUsed { index, len, .. } && index
            == then.chain.index && len == 0),
        then.chain.writable > 0 && then.hdr.flags & 1 != 0 ==> {
            &&& r matches QueueStep::CreateFence { fence, then: next }
            &&& fence.flags == then.hdr.flags
            &&& fence.fence_id == then.hdr.fence_id
            &&& fence.ctx_id == then.hdr.ctx_id
            &&& fence.ring_idx == then.hdr.ring_idx
            &&& next.fence == fence
            &&& next.response == response
            &&& next.index == then.chain.index
            &&& next.used_any == then.used_any
        },
        then.chain.writable > 0 && then.hdr.flags & 1 == 0 ==> {
            &&& r matches QueueStep::Encode { response: written, fence, then: next }
            &&& written == response
            &&& fence.flags == 0
            &&& fence.fence_id == 0
            &&& fence.ctx_id == 0
            &&& fence.ring_idx == 0
            &&& next.fence == fence
            &&& next.index == then.chain.index
            &&& next.used_any == then.used_any
        },
{
}

/// After the attempt to create a fence the response is written in either case, with the fields
/// of that fence: the command's response where the fence was created, and the device's word on
/// the failure where it was not.
pub proof fn law_fence_failures_replace_the_response<D>(
    then: AfterFence<D>,
    result: Result<(), GpuResponse<D>>,
    r: QueueStep<D>,
)
    requires
        call_ensures(AfterFence::<D>::fence_created, (then, result), r),
    ensures
        ({
            &&& r matches QueueStep::Encode { response, fence, then: next }
            &&& result is Ok ==> response == then.response
            &&& result is Err ==> response == result->Err_0
            &&& fence.flags == then.fence.flags
            &&& fence.fence_id == then.fence.fence_id
            &&& fence.ctx_id == then.fence.ctx_id
            &&& fence.ring_idx == then.fence.ring_idx
            &&& next.fence == fence
            &&& next.index == then.index
            &&& next.used_any == then.used_any
        }),
{
}

/// A chain whose response is written is given back with the length that was written, zero where
/// that failed. One with a fence is put before the device first: under the identifier of the
/// fence, on the ring of the fence's context where the second flag is set, whichever ring that
/// is, and on the global ring where it is not.
pub proof fn law_fences_are_processed_on_their_ring<D>(
    then: AfterEncode,
    written: Option<u32>,
    r: QueueStep<D>,
)
    requires
        call_ensures(AfterEncode::encoded::<D>, (then, written), r),
    ensures
        then.fence.flags & 1 == 0 ==> {
            &&& r matches QueueStep::AddUsed { index, len, .. }
            &&& index == then.index
            &&& written is Some ==> len == written->0
            &&& written is None ==> len == 0
        },
        then.fence.flags & 1 != 0 ==> {
            &&& r matches QueueStep::ProcessFence { ring, fence_id, index, len, then: next }
            &&& then.fence.flags & 2 == 0 <==> ring is Global
            &&& then.fence.flags & 2 != 0 <==> ring == (VirtioGpuRing::ContextSpecific {
                ctx_id: then.fence.ctx_id,
                ring_idx: then.fence.ring_idx,
            })
            &&& fence_id == then.fence.fence_id
            &&& index == then.index
            &&& written is Some ==> len == written->0
            &&& written is None ==> len == 0
            &&& next.index == index
            &&& next.len == len
            &&& next.used_any == then.used_any
        },
{
}

/// A chain whose fence is signaled is given back, with its length; the device keeps any other,
/// and the next chain is taken.
pub proof fn law_only_signaled_fences_release<D>(
    then: AfterProcessFence,
    signaled: bool,
    r: QueueStep<D>,
)
    requires
        call_ensures(AfterProcessFence::fence_processed::<D>, (then, signaled), r),
    ensures
        signaled ==> (r matches QueueStep::AddUsed { index, len, .. } && index == then.index && len
            == then.len),
        !signaled ==> (r matches QueueStep::Pop { then: next } && next.used_any == then.used_any),
{
}

/// After a chain is given back the next one is taken, and the run knows that one was given back.
pub proof fn law_giving_back_is_remembered<D>(then: AfterAddUsed, r: QueueStep<D>)
    requires
        call_ensures(AfterAddUsed::used_added::<D>, (then,), r),
    ensures
        r matches QueueStep::Pop { then: next } && next.used_any,
{
}

} // verus!
