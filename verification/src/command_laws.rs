//! What the device is asked for, command by command, in the fields of the command itself.
//!
//! Each law speaks of what [`process_gpu_command`] gives for a command under a header, with a
//! payload behind it, and of nothing in between.

use crate::command::{process_gpu_command, Dispatch};
use crate::protocol::{
    CmdSubmit, CreateBlob, CtrlHdr, DeviceCall, GpuCommand, GpuResponse, ResourceAttachBacking,
    TransferHost3d,
};
use crate::reader::{lemma_fence_id_at, lemma_mem_entry_at, u32_at, u64_at, Reader};
use vstd::prelude::*;
use vstd::utf8::{decode_utf8, valid_utf8};

verus! {

/// A command about displays asks for what it names: the screen, the resource to show there and
/// its size, the rectangle to flush.
pub proof fn law_display_commands<D>(
    hdr: CtrlHdr,
    cmd: GpuCommand,
    reader: &mut Reader,
    d: Dispatch<D>,
)
    requires
        call_ensures(process_gpu_command::<D>, (hdr, cmd, reader), d),
    ensures
        match cmd {
            GpuCommand::GetDisplayInfo => d matches Dispatch::Call(DeviceCall::DisplayInfo),
            GpuCommand::GetEdid(info) => {
                &&& d matches Dispatch::Call(DeviceCall::GetEdid { scanout })
                &&& scanout == info.scanout
            },
            GpuCommand::SetScanout(info) => {
                &&& d matches Dispatch::Call(
                    DeviceCall::SetScanout { scanout_id, resource_id, width, height },
                )
                &&& scanout_id == info.scanout_id
                &&& resource_id == info.resource_id
                &&& width == info.r.width
                &&& height == info.r.height
            },
            GpuCommand::ResourceFlush(info) => {
                &&& d matches Dispatch::Call(DeviceCall::FlushResource { resource_id, rect })
                &&& resource_id == info.resource_id
                &&& rect.x == info.r.x
                &&& rect.y == info.r.y
                &&& rect.width == info.r.width
                &&& rect.height == info.r.height
            },
            _ => true,
        },
{
}

/// A command about one resource asks for its own operation on that resource, and a blob is
/// mapped at the offset that the guest gave.
pub proof fn law_resource_commands<D>(
    hdr: CtrlHdr,
    cmd: GpuCommand,
    reader: &mut Reader,
    d: Dispatch<D>,
)
    requires
        call_ensures(process_gpu_command::<D>, (hdr, cmd, reader), d),
    ensures
        match cmd {
            GpuCommand::ResourceUnref(info) => {
                &&& d matches Dispatch::Call(DeviceCall::UnrefResource { resource_id })
                &&& resource_id == info.resource_id
            },
            GpuCommand::ResourceDetachBacking(info) => {
                &&& d matches Dispatch::Call(DeviceCall::DetachBacking { resource_id })
                &&& resource_id == info.resource_id
            },
            GpuCommand::ResourceAssignUuid(info) => {
                &&& d matches Dispatch::Call(DeviceCall::ResourceAssignUuid { resource_id })
                &&& resource_id == info.resource_id
            },
            GpuCommand::ResourceMapBlob(info) => {
                &&& d matches Dispatch::Call(DeviceCall::ResourceMapBlob { resource_id, offset })
                &&& resource_id == info.resource_id
                &&& offset == info.offset
            },
            GpuCommand::ResourceUnmapBlob(info) => {
                &&& d matches Dispatch::Call(DeviceCall::ResourceUnmapBlob { resource_id })
                &&& resource_id == info.resource_id
            },
            _ => true,
        },
{
}

/// A command about capability sets asks for the one that it names.
pub proof fn law_capset_commands<D>(
    hdr: CtrlHdr,
    cmd: GpuCommand,
    reader: &mut Reader,
    d: Dispatch<D>,
)
    requires
        call_ensures(process_gpu_command::<D>, (hdr, cmd, reader), d),
    ensures
        match cmd {
            GpuCommand::GetCapsetInfo(info) => {
                &&& d matches Dispatch::Call(DeviceCall::GetCapsetInfo { index })
                &&& index == info.capset_index
            },
            GpuCommand::GetCapset(info) => {
                &&& d matches Dispatch::Call(DeviceCall::GetCapset { capset_id, version })
                &&& capset_id == info.capset_id
                &&& version == info.capset_version
            },
            _ => true,
        },
{
}

/// A command about a context works on the context of its header. A new context gets the whole
/// debug name for its name, where that is text, and no name otherwise.
pub proof fn law_context_commands<D>(
    hdr: CtrlHdr,
    cmd: GpuCommand,
    reader: &mut Reader,
    d: Dispatch<D>,
)
    requires
        call_ensures(process_gpu_command::<D>, (hdr, cmd, reader), d),
    ensures
        match cmd {
            GpuCommand::CtxCreate(info) => {
                &&& d matches Dispatch::Call(
                    DeviceCall::CreateContext { ctx_id, context_init, context_name },
                )
                &&& ctx_id == hdr.ctx_id
                &&& context_init == info.context_init
                &&& context_name is Some <==> valid_utf8(info.debug_name@)
                &&& context_name matches Some(name) ==> name@ == decode_utf8(info.debug_name@)
            },
            GpuCommand::CtxDestroy => {
                &&& d matches Dispatch::Call(DeviceCall::DestroyContext { ctx_id })
                &&& ctx_id == hdr.ctx_id
            },
            GpuCommand::CtxAttachResource(info) => {
                &&& d matches Dispatch::Call(
                    DeviceCall::ContextAttachResource { ctx_id, resource_id },
                )
                &&& ctx_id == hdr.ctx_id
                &&& resource_id == info.resource_id
            },
            GpuCommand::CtxDetachResource(info) => {
                &&& d matches Dispatch::Call(
                    DeviceCall::ContextDetachResource { ctx_id, resource_id },
                )
                &&& ctx_id == hdr.ctx_id
                &&& resource_id == info.resource_id
            },
            _ => true,
        },
{
}

/// A resource is made as the guest described it, field by field. One in two dimensions is a
/// texture of one layer, one level and no samples that is rendered to.
pub proof fn law_resources_are_made_as_described<D>(
    hdr: CtrlHdr,
    cmd: GpuCommand,
    reader: &mut Reader,
    d: Dispatch<D>,
)
    requires
        call_ensures(process_gpu_command::<D>, (hdr, cmd, reader), d),
    ensures
        match cmd {
            GpuCommand::ResourceCreate2d(info) => {
                &&& d matches Dispatch::Call(DeviceCall::ResourceCreate3d { resource_id, args })
                &&& resource_id == info.resource_id
                &&& args.target == 2
                &&& args.format == info.format
                &&& args.bind == 2
                &&& args.width == info.width
                &&& args.height == info.height
                &&& args.depth == 1
                &&& args.array_size == 1
                &&& args.last_level == 0
                &&& args.nr_samples == 0
                &&& args.flags == 0
            },
            GpuCommand::ResourceCreate3d(info) => {
                &&& d matches Dispatch::Call(DeviceCall::ResourceCreate3d { resource_id, args })
                &&& resource_id == info.resource_id
                &&& args.target == info.target
                &&& args.format == info.format
                &&& args.bind == info.bind
                &&& args.width == info.width
                &&& args.height == info.height
                &&& args.depth == info.depth
                &&& args.array_size == info.array_size
                &&& args.last_level == info.last_level
                &&& args.nr_samples == info.nr_samples
                &&& args.flags == info.flags
            },
            _ => true,
        },
{
}

/// A transfer moves the texels that the guest named, between the resource and the place in its
/// backing that the guest named: every field of a three-dimensional transfer is the command's,
/// in either direction, on every level. A rectangle goes to the host from context zero, at
/// depth zero, one texel deep, on the first level, from the start of the backing.
pub proof fn law_transfers_move_what_was_named<D>(
    hdr: CtrlHdr,
    cmd: GpuCommand,
    reader: &mut Reader,
    d: Dispatch<D>,
)
    requires
        call_ensures(process_gpu_command::<D>, (hdr, cmd, reader), d),
    ensures
        match cmd {
            GpuCommand::TransferToHost2d(info) => {
                &&& d matches Dispatch::Call(
                    DeviceCall::TransferWrite { ctx_id, resource_id, transfer },
                )
                &&& ctx_id == 0
                &&& resource_id == info.resource_id
                &&& transfer.x == info.r.x
                &&& transfer.y == info.r.y
                &&& transfer.z == 0
                &&& transfer.w == info.r.width
                &&& transfer.h == info.r.height
                &&& transfer.d == 1
                &&& transfer.level == 0
                &&& transfer.stride == 0
                &&& transfer.layer_stride == 0
                &&& transfer.offset == 0
            },
            GpuCommand::TransferToHost3d(info) => {
                &&& d matches Dispatch::Call(
                    DeviceCall::TransferWrite { ctx_id, resource_id, transfer },
                )
                &&& ctx_id == hdr.ctx_id
                &&& resource_id == info.resource_id
                &&& transfer.x == info.box_.x
                &&& transfer.y == info.box_.y
                &&& transfer.z == info.box_.z
                &&& transfer.w == info.box_.w
                &&& transfer.h == info.box_.h
                &&& transfer.d == info.box_.d
                &&& transfer.level == info.level
                &&& transfer.stride == info.stride
                &&& transfer.layer_stride == info.layer_stride
                &&& transfer.offset == info.offset
            },
            GpuCommand::TransferFromHost3d(info) => {
                &&& d matches Dispatch::Call(
                    DeviceCall::TransferRead { ctx_id, resource_id, transfer },
                )
                &&& ctx_id == hdr.ctx_id
                &&& resource_id == info.resource_id
                &&& transfer.x == info.box_.x
                &&& transfer.y == info.box_.y
                &&& transfer.z == info.box_.z
                &&& transfer.w == info.box_.w
                &&& transfer.h == info.box_.h
                &&& transfer.d == info.box_.d
                &&& transfer.level == info.level
                &&& transfer.stride == info.stride
                &&& transfer.layer_stride == info.layer_stride
                &&& transfer.offset == info.offset
            },
            _ => true,
        },
{
}

/// Transfers are told apart: two three-dimensional transfers in one direction that come to the
/// same call are one and the same, and stand under headers of the same context.
pub proof fn law_transfers_are_told_apart<D>(
    hdr: CtrlHdr,
    info: TransferHost3d,
    reader: &mut Reader,
    other_hdr: CtrlHdr,
    other: TransferHost3d,
    other_reader: &mut Reader,
    to_host: bool,
    d: Dispatch<D>,
)
    requires
        to_host ==> call_ensures(
            process_gpu_command::<D>,
            (hdr, GpuCommand::TransferToHost3d(info), reader),
            d,
        ) && call_ensures(
            process_gpu_command::<D>,
            (other_hdr, GpuCommand::TransferToHost3d(other), other_reader),
            d,
        ),
        !to_host ==> call_ensures(
            process_gpu_command::<D>,
            (hdr, GpuCommand::TransferFromHost3d(info), reader),
            d,
        ) && call_ensures(
            process_gpu_command::<D>,
            (other_hdr, GpuCommand::TransferFromHost3d(other), other_reader),
            d,
        ),
    ensures
        info == other,
        hdr.ctx_id == other_hdr.ctx_id,
{
}

/// Backing is attached as its entries stand in the payload: sixteen bytes each, an address and
/// a length with the least significant byte first. A payload that is empty or too short for the
/// entries is refused, and no other.
pub proof fn law_backing_is_what_the_payload_lists<D>(
    hdr: CtrlHdr,
    info: ResourceAttachBacking,
    reader: &mut Reader,
    d: Dispatch<D>,
)
    requires
        call_ensures(
            process_gpu_command::<D>,
            (hdr, GpuCommand::ResourceAttachBacking(info), reader),
            d,
        ),
    ensures
        old(reader)@.len() == 0 || old(reader)@.len() < 16 * info.nr_entries
            ==> d == Dispatch::<D>::Reply(Err(GpuResponse::ErrUnspec)),
        old(reader)@.len() > 0 && old(reader)@.len() >= 16 * info.nr_entries ==> {
            &&& d matches Dispatch::Call(DeviceCall::AttachBacking { resource_id, vecs })
            &&& resource_id == info.resource_id
            &&& vecs@.len() == info.nr_entries
            &&& forall|i: int|
                0 <= i < vecs@.len() ==> {
                    &&& (#[trigger] vecs@[i]).0 == u64_at(old(reader)@, 16 * i)
                    &&& vecs@[i].1 == u32_at(old(reader)@, 16 * i + 8)
                }
        },
{
    let payload = old(reader)@;
    if payload.len() > 0 && payload.len() >= 16 * info.nr_entries {
        assert forall|i: int| 0 <= i < info.nr_entries implies {
            &&& (#[trigger] (d->Call_0->AttachBacking_vecs)@[i]).0 == u64_at(payload, 16 * i)
            &&& (d->Call_0->AttachBacking_vecs)@[i].1 == u32_at(payload, 16 * i + 8)
        } by {
            lemma_mem_entry_at(payload, 16 * i);
        }
    }
}

/// A blob is made from the parameters that the guest gave, whatever kind of memory it names, in
/// the context of the header, with the backing that stands in the payload. A payload too short
/// for the entries is refused, and no other.
pub proof fn law_blobs_are_made_as_described<D>(
    hdr: CtrlHdr,
    info: CreateBlob,
    reader: &mut Reader,
    d: Dispatch<D>,
)
    requires
        call_ensures(
            process_gpu_command::<D>,
            (hdr, GpuCommand::ResourceCreateBlob(info), reader),
            d,
        ),
    ensures
        old(reader)@.len() < 16 * info.nr_entries ==> d == Dispatch::<D>::Reply(
            Err(GpuResponse::ErrUnspec),
        ),
        old(reader)@.len() >= 16 * info.nr_entries ==> {
            &&& d matches Dispatch::Call(
                DeviceCall::ResourceCreateBlob { ctx_id, resource_id, blob, vecs },
            )
            &&& ctx_id == hdr.ctx_id
            &&& resource_id == info.resource_id
            &&& blob.blob_mem == info.blob_mem
            &&& blob.blob_flags == info.blob_flags
            &&& blob.blob_id == info.blob_id
            &&& blob.size == info.size
            &&& vecs@.len() == info.nr_entries
            &&& forall|i: int|
                0 <= i < vecs@.len() ==> {
                    &&& (#[trigger] vecs@[i]).0 == u64_at(old(reader)@, 16 * i)
                    &&& vecs@[i].1 == u32_at(old(reader)@, 16 * i + 8)
                }
        },
{
    let payload = old(reader)@;
    if payload.len() >= 16 * info.nr_entries {
        assert forall|i: int| 0 <= i < info.nr_entries implies {
            &&& (#[trigger] (d->Call_0->ResourceCreateBlob_vecs)@[i]).0 == u64_at(payload, 16 * i)
            &&& (d->Call_0->ResourceCreateBlob_vecs)@[i].1 == u32_at(payload, 16 * i + 8)
        } by {
            lemma_mem_entry_at(payload, 16 * i);
        }
    }
}

/// A submission is split where the guest split it: eight bytes for each fence to wait for, the
/// least significant byte first, and behind them the commands. No payload at all is accepted in
/// silence; one too short for the fences is an unspecified error; one too short for the commands
/// is an invalid parameter.
pub proof fn law_submissions_are_split_as_sent<D>(
    hdr: CtrlHdr,
    info: CmdSubmit,
    reader: &mut Reader,
    d: Dispatch<D>,
)
    requires
        call_ensures(
            process_gpu_command::<D>,
            (hdr, GpuCommand::CmdSubmit3d(info), reader),
            d,
        ),
    ensures
        ({
            let payload = old(reader)@;
            let fences_end = 8 * info.num_in_fences;
            &&& payload.len() == 0 ==> d == Dispatch::<D>::Reply(Ok(GpuResponse::OkNoData))
            &&& 0 < payload.len() < fences_end ==> d == Dispatch::<D>::Reply(
                Err(GpuResponse::ErrUnspec),
            )
            &&& 0 < payload.len() && fences_end <= payload.len() < fences_end + info.size
                ==> d == Dispatch::<D>::Reply(Err(GpuResponse::ErrInvalidParameter))
            &&& 0 < payload.len() && fences_end + info.size <= payload.len() ==> {
                &&& d matches Dispatch::Call(
                    DeviceCall::SubmitCommand { ctx_id, commands, fence_ids },
                )
                &&& ctx_id == hdr.ctx_id
                &&& fence_ids@.len() == info.num_in_fences
                &&& forall|i: int|
                    0 <= i < fence_ids@.len() ==> #[trigger] fence_ids@[i] == u64_at(payload, 8 * i)
                &&& commands@.len() == info.size
                &&& forall|i: int|
                    0 <= i < commands@.len() ==> #[trigger] commands@[i] == payload[fences_end + i]
            }
        }),
{
    let payload = old(reader)@;
    let fences_end = 8 * info.num_in_fences;
    if 0 < payload.len() && fences_end + info.size <= payload.len() {
        assert forall|i: int| 0 <= i < info.num_in_fences implies #[trigger] (
        d->Call_0->SubmitCommand_fence_ids)@[i] == u64_at(payload, 8 * i) by {
            lemma_fence_id_at(payload, 8 * i);
        }
    }
}

/// A command takes from the payload what it is made of and leaves the rest: whole entries for
/// its list, and the commands behind it where they are all there. Nothing of a payload is taken
/// by a command that has none.
pub proof fn law_commands_take_their_own_payload<D>(
    hdr: CtrlHdr,
    cmd: GpuCommand,
    reader: &mut Reader,
    d: Dispatch<D>,
)
    requires
        call_ensures(process_gpu_command::<D>, (hdr, cmd, reader), d),
    ensures
        ({
            let len = old(reader)@.len() as int;
            let left = final(reader)@.len() as int;
            &&& left <= len
            &&& final(reader)@ == old(reader)@.skip(len - left)
            &&& match cmd {
                GpuCommand::ResourceAttachBacking(info) => if 16 * info.nr_entries <= len {
                    left == len - 16 * info.nr_entries
                } else {
                    left == len % 16
                },
                GpuCommand::ResourceCreateBlob(info) => if 16 * info.nr_entries <= len {
                    left == len - 16 * info.nr_entries
                } else {
                    left == len % 16
                },
                GpuCommand::CmdSubmit3d(info) => if 8 * info.num_in_fences + info.size <= len {
                    left == len - 8 * info.num_in_fences - info.size
                } else if 8 * info.num_in_fences <= len {
                    left == len - 8 * info.num_in_fences
                } else {
                    left == len % 8
                },
                _ => left == len,
            }
        }),
{
}

} // verus!
