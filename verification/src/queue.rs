//! Draining the control queue.
//!
//! The worker takes descriptor chains off the queue until none is left. For each one it decodes
//! a command, has the device run it, sets up a fence where the guest asked for one, writes the
//! response and gives the chain back, unless the device keeps it until the fence is signaled.
//!
//! Every piece of outside work is a [`QueueStep`]. It carries what the work needs and a
//! continuation, `then`, whose one method takes what the work returned and gives the next step.

use crate::command::{bytes_read, dispatches, process_gpu_command, Dispatch};
use crate::protocol::{
    CtrlHdr, DeviceCall, GpuCommand, GpuResponse, GpuResult, VIRTIO_GPU_FLAG_FENCE,
    VIRTIO_GPU_FLAG_INFO_RING_IDX,
};
use crate::reader::Reader;
use vstd::prelude::*;

verus! {

/// A descriptor chain: the index of its head, and how many bytes the device may write to it.
#[derive(Clone, Copy, Debug, PartialEq, Eq, Structural)]
pub struct Chain {
    pub index: u16,
    pub writable: usize,
}

/// The fence fields of a response. They are all zero where no fence was asked for.
#[derive(Clone, Copy, Debug, PartialEq, Eq, Structural)]
pub struct FenceFields {
    pub flags: u32,
    pub fence_id: u64,
    pub ctx_id: u32,
    pub ring_idx: u8,
}

/// Where a fence lives.
#[derive(Clone, Copy, Debug, PartialEq, Eq, Structural)]
pub enum VirtioGpuRing {
    Global,
    ContextSpecific { ctx_id: u32, ring_idx: u8 },
}

/// The next piece of outside work, or the end.
#[derive(Debug, PartialEq, Eq)]
#[allow(inconsistent_fields)]
pub enum QueueStep<D> {
    /// Take the next descriptor chain off the queue.
    Pop { then: AfterPop },
    /// Decode the command in the chain.
    Decode { chain: Chain, then: AfterDecode },
    /// Make context zero the current one.
    ForceContextZero { then: AfterForce<D> },
    /// Have the device make a call.
    Execute { call: DeviceCall, then: AfterExecute },
    /// Have the device create a fence.
    CreateFence { fence: FenceFields, then: AfterFence<D> },
    /// Write a response to the chain.
    Encode { response: GpuResponse<D>, fence: FenceFields, then: AfterEncode },
    /// Ask the device whether the chain can be given back, or must wait for the fence.
    ProcessFence {
        ring: VirtioGpuRing,
        fence_id: u64,
        index: u16,
        len: u32,
        then: AfterProcessFence,
    },
    /// Give the chain back, with `len` bytes written.
    AddUsed { index: u16, len: u32, then: AfterAddUsed },
    /// The queue is empty. Tells whether any chain was given back.
    Done { used_any: bool },
}

#[derive(Clone, Copy, Debug, PartialEq, Eq, Structural)]
pub struct AfterPop {
    pub used_any: bool,
}

#[derive(Clone, Copy, Debug, PartialEq, Eq, Structural)]
pub struct AfterDecode {
    pub used_any: bool,
    pub chain: Chain,
}

#[derive(Debug, PartialEq, Eq)]
pub struct AfterForce<D> {
    pub used_any: bool,
    pub chain: Chain,
    pub hdr: CtrlHdr,
    pub dispatch: Dispatch<D>,
}

#[derive(Clone, Copy, Debug, PartialEq, Eq, Structural)]
pub struct AfterExecute {
    pub used_any: bool,
    pub chain: Chain,
    pub hdr: CtrlHdr,
}

#[derive(Debug, PartialEq, Eq)]
pub struct AfterFence<D> {
    pub used_any: bool,
    pub index: u16,
    pub fence: FenceFields,
    pub response: GpuResponse<D>,
}

#[derive(Clone, Copy, Debug, PartialEq, Eq, Structural)]
pub struct AfterEncode {
    pub used_any: bool,
    pub index: u16,
    pub fence: FenceFields,
}

#[derive(Clone, Copy, Debug, PartialEq, Eq, Structural)]
pub struct AfterProcessFence {
    pub used_any: bool,
    pub index: u16,
    pub len: u32,
}

#[derive(Clone, Copy, Debug, PartialEq, Eq, Structural)]
pub struct AfterAddUsed {

}

/// Whether header flags ask for a fence.
pub open spec fn fenced(flags: u32) -> bool {
    flags & VIRTIO_GPU_FLAG_FENCE != 0
}

/// The fence fields of a response where no fence was asked for.
pub open spec fn no_fence() -> FenceFields {
    FenceFields { flags: 0, fence_id: 0, ctx_id: 0, ring_idx: 0 }
}

/// The fence that a header describes.
pub open spec fn fence_of(hdr: CtrlHdr) -> FenceFields {
    FenceFields {
        flags: hdr.flags,
        fence_id: hdr.fence_id,
        ctx_id: hdr.ctx_id,
        ring_idx: hdr.ring_idx,
    }
}

/// The ring of a fence: one of its context where the flags say so, else the global one.
pub open spec fn ring_of(fence: FenceFields) -> VirtioGpuRing {
    if fence.flags & VIRTIO_GPU_FLAG_INFO_RING_IDX == 0 {
        VirtioGpuRing::Global
    } else {
        VirtioGpuRing::ContextSpecific { ctx_id: fence.ctx_id, ring_idx: fence.ring_idx }
    }
}

/// The response in a result: both ways of ending carry one.
pub open spec fn response_of<D>(result: GpuResult<D>) -> GpuResponse<D> {
    match result {
        Ok(response) => response,
        Err(response) => response,
    }
}

/// Giving back a chain with `len` bytes written.
pub open spec fn give_back<D>(index: u16, len: u32) -> QueueStep<D> {
    QueueStep::AddUsed { index, len, then: AfterAddUsed {  } }
}

/// Writing a response.
pub open spec fn write_response<D>(
    used_any: bool,
    index: u16,
    response: GpuResponse<D>,
    fence: FenceFields,
) -> QueueStep<D> {
    QueueStep::Encode { response, fence, then: AfterEncode { used_any, index, fence } }
}

/// What follows once the command has its response: a chain with no room for it is given back
/// as it is; a decoded command that asks for a fence gets one; anything else is answered at
/// once.
pub open spec fn answered<D>(
    used_any: bool,
    chain: Chain,
    hdr: Option<CtrlHdr>,
    response: GpuResponse<D>,
) -> QueueStep<D> {
    if chain.writable == 0 {
        give_back(chain.index, 0)
    } else {
        match hdr {
            Some(h) if fenced(h.flags) => QueueStep::CreateFence {
                fence: fence_of(h),
                then: AfterFence { used_any, index: chain.index, fence: fence_of(h), response },
            },
            _ => write_response(used_any, chain.index, response, no_fence()),
        }
    }
}

/// Gives the step that follows once the command has its response.
fn answer<D>(
    used_any: bool,
    chain: Chain,
    hdr: Option<CtrlHdr>,
    response: GpuResponse<D>,
) -> (r: QueueStep<D>)
    ensures
        r == answered(used_any, chain, hdr, response),
{
    if chain.writable == 0 {
        return QueueStep::AddUsed { index: chain.index, len: 0, then: AfterAddUsed {  } };
    }
    if let Some(h) = hdr {
        if h.flags & VIRTIO_GPU_FLAG_FENCE != 0 {
            let fence = FenceFields {
                flags: h.flags,
                fence_id: h.fence_id,
                ctx_id: h.ctx_id,
                ring_idx: h.ring_idx,
            };
            return QueueStep::CreateFence {
                fence,
                then: AfterFence { used_any, index: chain.index, fence, response },
            };
        }
    }
    let fence = FenceFields { flags: 0, fence_id: 0, ctx_id: 0, ring_idx: 0 };
    QueueStep::Encode { response, fence, then: AfterEncode { used_any, index: chain.index, fence } }
}

/// Starts draining the queue.
pub fn process_queue<D>() -> (r: QueueStep<D>)
    ensures
        r == (QueueStep::<D>::Pop { then: AfterPop { used_any: false } }),
{
    QueueStep::Pop { then: AfterPop { used_any: false } }
}

impl AfterPop {
    /// What follows the attempt to take a chain.
    pub open spec fn next<D>(self, chain: Option<Chain>) -> QueueStep<D> {
        match chain {
            Some(c) => QueueStep::Decode {
                chain: c,
                then: AfterDecode { used_any: self.used_any, chain: c },
            },
            None => QueueStep::Done { used_any: self.used_any },
        }
    }

    /// Goes on with the chain that came off the queue, or ends where there was none.
    pub fn popped<D>(self, chain: Option<Chain>) -> (r: QueueStep<D>)
        ensures
            r == self.next::<D>(chain),
    {
        match chain {
            Some(chain) => QueueStep::Decode {
                chain,
                then: AfterDecode { used_any: self.used_any, chain },
            },
            None => QueueStep::Done { used_any: self.used_any },
        }
    }
}

impl AfterDecode {
    /// Whether `step` follows the decoding of `cmd` under `hdr`, with `payload` behind it: context
    /// zero is made the current one, whatever the command comes to.
    pub open spec fn leads_to<D>(
        self,
        hdr: CtrlHdr,
        cmd: GpuCommand,
        payload: Seq<u8>,
        step: QueueStep<D>,
    ) -> bool {
        &&& step matches QueueStep::ForceContextZero { then }
        &&& then.used_any == self.used_any
        &&& then.chain == self.chain
        &&& then.hdr == hdr
        &&& dispatches(hdr, cmd, payload, then.dispatch)
    }

    /// What follows where no command could be decoded.
    pub open spec fn next_undecoded<D>(self) -> QueueStep<D> {
        answered(self.used_any, self.chain, None, GpuResponse::ErrUnspec)
    }

    /// Goes on with the decoded command and with what follows it in the chain.
    pub fn decoded<D>(self, hdr: CtrlHdr, cmd: GpuCommand, reader: &mut Reader) -> (r: QueueStep<D>)
        requires
            cmd.supported(),
        ensures
            self.leads_to::<D>(hdr, cmd, old(reader)@, r),
            final(reader)@ == old(reader)@.skip(bytes_read(cmd, old(reader)@.len())),
    {
        let dispatch = process_gpu_command(hdr, cmd, reader);
        QueueStep::ForceContextZero {
            then: AfterForce { used_any: self.used_any, chain: self.chain, hdr, dispatch },
        }
    }

    /// Goes on where no command could be decoded: the guest is told of an unspecified error.
    pub fn undecoded<D>(self) -> (r: QueueStep<D>)
        ensures
            r == self.next_undecoded::<D>(),
    {
        answer(self.used_any, self.chain, None, GpuResponse::ErrUnspec)
    }
}

impl<D> AfterForce<D> {
    /// What follows once context zero is the current one.
    pub open spec fn next(self) -> QueueStep<D> {
        let then = AfterExecute { used_any: self.used_any, chain: self.chain, hdr: self.hdr };
        match self.dispatch {
            Dispatch::Call(call) => QueueStep::Execute { call, then },
            Dispatch::Reply(result) => then.next(result),
        }
    }

    /// Goes on with the call on the device, or with the answer where there is no call.
    pub fn forced(self) -> (r: QueueStep<D>)
        ensures
            r == self.next(),
    {
        let then = AfterExecute { used_any: self.used_any, chain: self.chain, hdr: self.hdr };
        match self.dispatch {
            Dispatch::Call(call) => QueueStep::Execute { call, then },
            Dispatch::Reply(result) => then.executed(result),
        }
    }
}

impl AfterExecute {
    /// What follows once the command has its response.
    pub open spec fn next<D>(self, result: GpuResult<D>) -> QueueStep<D> {
        answered(self.used_any, self.chain, Some(self.hdr), response_of(result))
    }

    /// Goes on with the response of the device, which it gives whether or not the call failed.
    pub fn executed<D>(self, result: GpuResult<D>) -> (r: QueueStep<D>)
        ensures
            r == self.next(result),
    {
        let response = match result {
            Ok(response) => response,
            Err(response) => response,
        };
        answer(self.used_any, self.chain, Some(self.hdr), response)
    }
}

impl<D> AfterFence<D> {
    /// What follows the attempt to create a fence.
    pub open spec fn next(self, result: Result<(), GpuResponse<D>>) -> QueueStep<D> {
        let response = match result {
            Ok(_) => self.response,
            Err(fence_response) => fence_response,
        };
        write_response(self.used_any, self.index, response, self.fence)
    }

    /// Goes on with the response. Where no fence could be created, the device's response to that
    /// takes the place of the command's.
    pub fn fence_created(self, result: Result<(), GpuResponse<D>>) -> (r: QueueStep<D>)
        ensures
            r == self.next(result),
    {
        let response = match result {
            Ok(_) => self.response,
            Err(fence_response) => fence_response,
        };
        QueueStep::Encode {
            response,
            fence: self.fence,
            then: AfterEncode { used_any: self.used_any, index: self.index, fence: self.fence },
        }
    }
}

impl AfterEncode {
    /// What follows the attempt to write the response.
    pub open spec fn next<D>(self, written: Option<u32>) -> QueueStep<D> {
        let len: u32 = match written {
            Some(n) => n,
            None => 0,
        };
        if fenced(self.fence.flags) {
            QueueStep::ProcessFence {
                ring: ring_of(self.fence),
                fence_id: self.fence.fence_id,
                index: self.index,
                len,
                then: AfterProcessFence { used_any: self.used_any, index: self.index, len },
            }
        } else {
            give_back(self.index, len)
        }
    }

    /// Goes on once the response is written, with its length; a response that could not be
    /// written has length zero. A fenced chain is put before the device, any other is given
    /// back.
    pub fn encoded<D>(self, written: Option<u32>) -> (r: QueueStep<D>)
        ensures
            r == self.next::<D>(written),
    {
        let len: u32 = match written {
            Some(n) => n,
            None => 0,
        };
        if self.fence.flags & VIRTIO_GPU_FLAG_FENCE != 0 {
            let ring = if self.fence.flags & VIRTIO_GPU_FLAG_INFO_RING_IDX == 0 {
                VirtioGpuRing::Global
            } else {
                VirtioGpuRing::ContextSpecific {
                    ctx_id: self.fence.ctx_id,
                    ring_idx: self.fence.ring_idx,
                }
            };
            QueueStep::ProcessFence {
                ring,
                fence_id: self.fence.fence_id,
                index: self.index,
                len,
                then: AfterProcessFence { used_any: self.used_any, index: self.index, len },
            }
        } else {
            QueueStep::AddUsed { index: self.index, len, then: AfterAddUsed {  } }
        }
    }
}

impl AfterProcessFence {
    /// What follows the device's word on the fence.
    pub open spec fn next<D>(self, signaled: bool) -> QueueStep<D> {
        if signaled {
            give_back(self.index, self.len)
        } else {
            QueueStep::Pop { then: AfterPop { used_any: self.used_any } }
        }
    }

    /// Goes on with giving the chain back, where the device says that its fence is signaled
    /// already. Otherwise the device keeps the chain, and the next one is taken.
    pub fn fence_processed<D>(self, signaled: bool) -> (r: QueueStep<D>)
        ensures
            r == self.next::<D>(signaled),
    {
        if signaled {
            QueueStep::AddUsed { index: self.index, len: self.len, then: AfterAddUsed {  } }
        } else {
            QueueStep::Pop { then: AfterPop { used_any: self.used_any } }
        }
    }
}

impl AfterAddUsed {
    /// What follows once the chain is given back.
    pub open spec fn next<D>(self) -> QueueStep<D> {
        QueueStep::Pop { then: AfterPop { used_any: true } }
    }

    /// Goes on with the next chain. A chain counts as given back even where the queue refused
    /// it.
    pub fn used_added<D>(self) -> (r: QueueStep<D>)
        ensures
            r == self.next::<D>(),
    {
        QueueStep::Pop { then: AfterPop { used_any: true } }
    }
}

} // verus!
