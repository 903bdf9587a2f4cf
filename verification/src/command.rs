//! From a decoded command to the call that the device is to make.

use crate::host::{
    flat_transfer, pipe_bind_render_target, pipe_texture_2d, string_from_utf8, transfer_2d,
    PIPE_BIND_RENDER_TARGET, PIPE_TEXTURE_2D,
};
use crate::protocol::{
    Box3, CmdSubmit, CreateBlob, CtrlHdr, DeviceCall, GpuCommand, GpuResponse, GpuResult, Rect,
    ResourceAttachBacking, ResourceCreate2d, ResourceCreate3D, ResourceCreate3d,
    ResourceCreateBlob, ResourceRect, Transfer3D, TransferHost3d,
};
use crate::reader::{
    fence_ids, fence_ids_bytes, law_fence_ids_round_trip, law_mem_entries_round_trip, mem_entries,
    mem_entries_bytes, Reader, FENCE_ID_LEN, MEM_ENTRY_LEN,
};
use vstd::prelude::*;
use vstd::slice::slice_to_vec;
use vstd::utf8::{decode_utf8, valid_utf8};

verus! {

/// What a command comes to: a call on the device, or an answer that needs no device.
#[derive(Debug, PartialEq, Eq)]
pub enum Dispatch<D> {
    Call(DeviceCall),
    Reply(GpuResult<D>),
}

/// The transfer that a three-dimensional transfer command describes.
pub open spec fn transfer_of(info: TransferHost3d) -> Transfer3D {
    Transfer3D {
        x: info.box_.x,
        y: info.box_.y,
        z: info.box_.z,
        w: info.box_.w,
        h: info.box_.h,
        d: info.box_.d,
        level: info.level,
        stride: info.stride,
        layer_stride: info.layer_stride,
        offset: info.offset,
    }
}

/// The resource that a three-dimensional create command describes.
pub open spec fn resource_of(info: ResourceCreate3d) -> ResourceCreate3D {
    ResourceCreate3D {
        target: info.target,
        format: info.format,
        bind: info.bind,
        width: info.width,
        height: info.height,
        depth: info.depth,
        array_size: info.array_size,
        last_level: info.last_level,
        nr_samples: info.nr_samples,
        flags: info.flags,
    }
}

/// A two-dimensional resource: a texture of one layer and one sample that is rendered to.
pub open spec fn flat_resource(format: u32, width: u32, height: u32) -> ResourceCreate3D {
    ResourceCreate3D {
        target: PIPE_TEXTURE_2D,
        format,
        bind: PIPE_BIND_RENDER_TARGET,
        width,
        height,
        depth: 1,
        array_size: 1,
        last_level: 0,
        nr_samples: 0,
        flags: 0,
    }
}

/// Whether `name` is what a context's debug name says: its text where it is valid UTF-8, and
/// no name otherwise.
pub open spec fn names_context(name: Option<String>, debug_name: Seq<u8>) -> bool {
    match name {
        Some(s) => valid_utf8(debug_name) && s@ == decode_utf8(debug_name),
        None => !valid_utf8(debug_name),
    }
}

/// Whether `d` is what `cmd` comes to when it stands under the header `hdr` and is followed by
/// the bytes `payload`.
pub open spec fn dispatches<D>(
    hdr: CtrlHdr,
    cmd: GpuCommand,
    payload: Seq<u8>,
    d: Dispatch<D>,
) -> bool {
    match cmd {
        GpuCommand::GetDisplayInfo => d == Dispatch::<D>::Call(DeviceCall::DisplayInfo),
        GpuCommand::GetEdid(info) => d == Dispatch::<D>::Call(
            DeviceCall::GetEdid { scanout: info.scanout },
        ),
        GpuCommand::ResourceCreate2d(info) => d == Dispatch::<D>::Call(
            DeviceCall::ResourceCreate3d {
                resource_id: info.resource_id,
                args: flat_resource(info.format, info.width, info.height),
            },
        ),
        GpuCommand::ResourceUnref(info) => d == Dispatch::<D>::Call(
            DeviceCall::UnrefResource { resource_id: info.resource_id },
        ),
        GpuCommand::SetScanout(info) => d == Dispatch::<D>::Call(
            DeviceCall::SetScanout {
                scanout_id: info.scanout_id,
                resource_id: info.resource_id,
                width: info.r.width,
                height: info.r.height,
            },
        ),
        GpuCommand::ResourceFlush(info) => d == Dispatch::<D>::Call(
            DeviceCall::FlushResource { resource_id: info.resource_id, rect: info.r },
        ),
        GpuCommand::TransferToHost2d(info) => d == Dispatch::<D>::Call(
            DeviceCall::TransferWrite {
                ctx_id: 0,
                resource_id: info.resource_id,
                transfer: flat_transfer(info.r.x, info.r.y, info.r.width, info.r.height),
            },
        ),
        GpuCommand::ResourceAttachBacking(info) => {
            if payload.len() == 0 {
                d == unspecified::<D>()
            } else {
                match mem_entries(payload, info.nr_entries as nat) {
                    Some(entries) => {
                        &&& d matches Dispatch::Call(DeviceCall::AttachBacking { resource_id, vecs })
                        &&& resource_id == info.resource_id
                        &&& vecs@ == entries
                    },
                    None => d == unspecified::<D>(),
                }
            }
        },
        GpuCommand::ResourceDetachBacking(info) => d == Dispatch::<D>::Call(
            DeviceCall::DetachBacking { resource_id: info.resource_id },
        ),
        GpuCommand::ResourceAssignUuid(info) => d == Dispatch::<D>::Call(
            DeviceCall::ResourceAssignUuid { resource_id: info.resource_id },
        ),
        GpuCommand::GetCapsetInfo(info) => d == Dispatch::<D>::Call(
            DeviceCall::GetCapsetInfo { index: info.capset_index },
        ),
        GpuCommand::GetCapset(info) => d == Dispatch::<D>::Call(
            DeviceCall::GetCapset { capset_id: info.capset_id, version: info.capset_version },
        ),
        GpuCommand::CtxCreate(info) => {
            &&& d matches Dispatch::Call(
                DeviceCall::CreateContext { ctx_id, context_init, context_name },
            )
            &&& ctx_id == hdr.ctx_id
            &&& context_init == info.context_init
            &&& names_context(context_name, info.debug_name@)
        },
        GpuCommand::CtxDestroy => d == Dispatch::<D>::Call(
            DeviceCall::DestroyContext { ctx_id: hdr.ctx_id },
        ),
        GpuCommand::CtxAttachResource(info) => d == Dispatch::<D>::Call(
            DeviceCall::ContextAttachResource {
                ctx_id: hdr.ctx_id,
                resource_id: info.resource_id,
            },
        ),
        GpuCommand::CtxDetachResource(info) => d == Dispatch::<D>::Call(
            DeviceCall::ContextDetachResource {
                ctx_id: hdr.ctx_id,
                resource_id: info.resource_id,
            },
        ),
        GpuCommand::ResourceCreate3d(info) => d == Dispatch::<D>::Call(
            DeviceCall::ResourceCreate3d {
                resource_id: info.resource_id,
                args: resource_of(info),
            },
        ),
        GpuCommand::TransferToHost3d(info) => d == Dispatch::<D>::Call(
            DeviceCall::TransferWrite {
                ctx_id: hdr.ctx_id,
                resource_id: info.resource_id,
                transfer: transfer_of(info),
            },
        ),
        GpuCommand::TransferFromHost3d(info) => d == Dispatch::<D>::Call(
            DeviceCall::TransferRead {
                ctx_id: hdr.ctx_id,
                resource_id: info.resource_id,
                transfer: transfer_of(info),
            },
        ),
        GpuCommand::CmdSubmit3d(info) => {
            let fences_len = FENCE_ID_LEN * info.num_in_fences;
            if payload.len() == 0 {
                d == Dispatch::<D>::Reply(Ok(GpuResponse::OkNoData))
            } else {
                match fence_ids(payload, info.num_in_fences as nat) {
                    None => d == unspecified::<D>(),
                    Some(fences) => if fences_len + info.size > payload.len() {
                        d == Dispatch::<D>::Reply(Err(GpuResponse::ErrInvalidParameter))
                    } else {
                        &&& d matches Dispatch::Call(
                            DeviceCall::SubmitCommand { ctx_id, commands, fence_ids },
                        )
                        &&& ctx_id == hdr.ctx_id
                        &&& fence_ids@ == fences
                        &&& commands@ == payload.subrange(fences_len, fences_len + info.size)
                    },
                }
            }
        },
        GpuCommand::ResourceCreateBlob(info) => {
            match mem_entries(payload, info.nr_entries as nat) {
                Some(entries) => {
                    &&& d matches Dispatch::Call(
                        DeviceCall::ResourceCreateBlob { ctx_id, resource_id, blob, vecs },
                    )
                    &&& ctx_id == hdr.ctx_id
                    &&& resource_id == info.resource_id
                    &&& blob == (ResourceCreateBlob {
                        blob_mem: info.blob_mem,
                        blob_flags: info.blob_flags,
                        blob_id: info.blob_id,
                        size: info.size,
                    })
                    &&& vecs@ == entries
                },
                None => d == unspecified::<D>(),
            }
        },
        GpuCommand::ResourceMapBlob(info) => d == Dispatch::<D>::Call(
            DeviceCall::ResourceMapBlob { resource_id: info.resource_id, offset: info.offset },
        ),
        GpuCommand::ResourceUnmapBlob(info) => d == Dispatch::<D>::Call(
            DeviceCall::ResourceUnmapBlob { resource_id: info.resource_id },
        ),
        GpuCommand::UpdateCursor | GpuCommand::MoveCursor | GpuCommand::SetScanoutBlob => false,
    }
}

/// The answer to a command whose payload is missing or cut short.
pub open spec fn unspecified<D>() -> Dispatch<D> {
    Dispatch::Reply(Err(GpuResponse::ErrUnspec))
}

/// How many of `len` payload bytes are read for `cmd`. A list that is cut short is read up to
/// its last whole item.
pub open spec fn bytes_read(cmd: GpuCommand, len: nat) -> int {
    match cmd {
        GpuCommand::ResourceAttachBacking(info) => list_bytes(
            MEM_ENTRY_LEN as nat,
            info.nr_entries as nat,
            len,
        ),
        GpuCommand::ResourceCreateBlob(info) => list_bytes(
            MEM_ENTRY_LEN as nat,
            info.nr_entries as nat,
            len,
        ),
        GpuCommand::CmdSubmit3d(info) => {
            let fences = list_bytes(FENCE_ID_LEN as nat, info.num_in_fences as nat, len);
            if FENCE_ID_LEN * info.num_in_fences + info.size <= len {
                fences + info.size
            } else {
                fences
            }
        },
        _ => 0,
    }
}

/// How many of `len` bytes a list of `n` items of `item` bytes each takes up.
pub open spec fn list_bytes(item: nat, n: nat, len: nat) -> int {
    if item * n <= len {
        (item * n) as int
    } else {
        len - len % item
    }
}

/// Turns a command into the call that the device is to make, or into an answer where the
/// payload already decides it.
pub fn process_gpu_command<D>(hdr: CtrlHdr, cmd: GpuCommand, reader: &mut Reader) -> (r: Dispatch<D>)
    requires
        cmd.supported(),
    ensures
        dispatches(hdr, cmd, old(reader)@, r),
        final(reader)@ == old(reader)@.skip(bytes_read(cmd, old(reader)@.len())),
{
    let ghost payload = reader@;
    proof {
        assert(payload.skip(0) =~= payload);
    }
    match cmd {
        GpuCommand::GetDisplayInfo => Dispatch::Call(DeviceCall::DisplayInfo),
        GpuCommand::GetEdid(info) => Dispatch::Call(DeviceCall::GetEdid { scanout: info.scanout }),
        GpuCommand::ResourceCreate2d(info) => {
            let args = ResourceCreate3D {
                target: pipe_texture_2d(),
                format: info.format,
                bind: pipe_bind_render_target(),
                width: info.width,
                height: info.height,
                depth: 1,
                array_size: 1,
                last_level: 0,
                nr_samples: 0,
                flags: 0,
            };
            Dispatch::Call(DeviceCall::ResourceCreate3d { resource_id: info.resource_id, args })
        },
        GpuCommand::ResourceUnref(info) => {
            Dispatch::Call(DeviceCall::UnrefResource { resource_id: info.resource_id })
        },
        GpuCommand::SetScanout(info) => Dispatch::Call(
            DeviceCall::SetScanout {
                scanout_id: info.scanout_id,
                resource_id: info.resource_id,
                width: info.r.width,
                height: info.r.height,
            },
        ),
        GpuCommand::ResourceFlush(info) => {
            let rect = Rect {
                x: info.r.x,
                y: info.r.y,
                width: info.r.width,
                height: info.r.height,
            };
            Dispatch::Call(DeviceCall::FlushResource { resource_id: info.resource_id, rect })
        },
        GpuCommand::TransferToHost2d(info) => {
            let transfer = transfer_2d(info.r.x, info.r.y, info.r.width, info.r.height);
            Dispatch::Call(
                DeviceCall::TransferWrite { ctx_id: 0, resource_id: info.resource_id, transfer },
            )
        },
        GpuCommand::ResourceAttachBacking(info) => {
            if reader.available_bytes() != 0 {
                match reader.read_mem_entries(info.nr_entries) {
                    Some(vecs) => Dispatch::Call(
                        DeviceCall::AttachBacking { resource_id: info.resource_id, vecs },
                    ),
                    None => Dispatch::Reply(Err(GpuResponse::ErrUnspec)),
                }
            } else {
                Dispatch::Reply(Err(GpuResponse::ErrUnspec))
            }
        },
        GpuCommand::ResourceDetachBacking(info) => {
            Dispatch::Call(DeviceCall::DetachBacking { resource_id: info.resource_id })
        },
        GpuCommand::ResourceAssignUuid(info) => {
            Dispatch::Call(DeviceCall::ResourceAssignUuid { resource_id: info.resource_id })
        },
        GpuCommand::GetCapsetInfo(info) => {
            Dispatch::Call(DeviceCall::GetCapsetInfo { index: info.capset_index })
        },
        GpuCommand::GetCapset(info) => Dispatch::Call(
            DeviceCall::GetCapset { capset_id: info.capset_id, version: info.capset_version },
        ),
        GpuCommand::CtxCreate(info) => {
            let context_name = string_from_utf8(slice_to_vec(info.debug_name.as_slice()));
            Dispatch::Call(
                DeviceCall::CreateContext {
                    ctx_id: hdr.ctx_id,
                    context_init: info.context_init,
                    context_name,
                },
            )
        },
        GpuCommand::CtxDestroy => {
            Dispatch::Call(DeviceCall::DestroyContext { ctx_id: hdr.ctx_id })
        },
        GpuCommand::CtxAttachResource(info) => Dispatch::Call(
            DeviceCall::ContextAttachResource {
                ctx_id: hdr.ctx_id,
                resource_id: info.resource_id,
            },
        ),
        GpuCommand::CtxDetachResource(info) => Dispatch::Call(
            DeviceCall::ContextDetachResource {
                ctx_id: hdr.ctx_id,
                resource_id: info.resource_id,
            },
        ),
        GpuCommand::ResourceCreate3d(info) => {
            let args = ResourceCreate3D {
                target: info.target,
                format: info.format,
                bind: info.bind,
                width: info.width,
                height: info.height,
                depth: info.depth,
                array_size: info.array_size,
                last_level: info.last_level,
                nr_samples: info.nr_samples,
                flags: info.flags,
            };
            Dispatch::Call(DeviceCall::ResourceCreate3d { resource_id: info.resource_id, args })
        },
        GpuCommand::TransferToHost3d(info) => Dispatch::Call(
            DeviceCall::TransferWrite {
                ctx_id: hdr.ctx_id,
                resource_id: info.resource_id,
                transfer: transfer_3d(info),
            },
        ),
        GpuCommand::TransferFromHost3d(info) => Dispatch::Call(
            DeviceCall::TransferRead {
                ctx_id: hdr.ctx_id,
                resource_id: info.resource_id,
                transfer: transfer_3d(info),
            },
        ),
        GpuCommand::CmdSubmit3d(info) => {
            if reader.available_bytes() != 0 {
                match reader.read_fence_ids(info.num_in_fences) {
                    Some(fence_ids) => {
                        let ghost at = FENCE_ID_LEN * info.num_in_fences;
                        match reader.read_exact(info.size as usize) {
                            Some(commands) => {
                                proof {
                                    assert(payload.skip(at).take(info.size as int)
                                        =~= payload.subrange(at, at + info.size));
                                    assert(payload.skip(at).skip(info.size as int)
                                        =~= payload.skip(at + info.size));
                                }
                                Dispatch::Call(
                                    DeviceCall::SubmitCommand {
                                        ctx_id: hdr.ctx_id,
                                        commands,
                                        fence_ids,
                                    },
                                )
                            },
                            None => Dispatch::Reply(Err(GpuResponse::ErrInvalidParameter)),
                        }
                    },
                    None => Dispatch::Reply(Err(GpuResponse::ErrUnspec)),
                }
            } else {
                // An empty command buffer is accepted in silence, which lets guests measure the
                // way through the queue alone.
                Dispatch::Reply(Ok(GpuResponse::OkNoData))
            }
        },
        GpuCommand::ResourceCreateBlob(info) => {
            if reader.available_bytes() == 0 && info.nr_entries > 0 {
                return Dispatch::Reply(Err(GpuResponse::ErrUnspec));
            }
            match reader.read_mem_entries(info.nr_entries) {
                Some(vecs) => {
                    let blob = ResourceCreateBlob {
                        blob_mem: info.blob_mem,
                        blob_flags: info.blob_flags,
                        blob_id: info.blob_id,
                        size: info.size,
                    };
                    Dispatch::Call(
                        DeviceCall::ResourceCreateBlob {
                            ctx_id: hdr.ctx_id,
                            resource_id: info.resource_id,
                            blob,
                            vecs,
                        },
                    )
                },
                None => Dispatch::Reply(Err(GpuResponse::ErrUnspec)),
            }
        },
        GpuCommand::ResourceMapBlob(info) => Dispatch::Call(
            DeviceCall::ResourceMapBlob { resource_id: info.resource_id, offset: info.offset },
        ),
        GpuCommand::ResourceUnmapBlob(info) => {
            Dispatch::Call(DeviceCall::ResourceUnmapBlob { resource_id: info.resource_id })
        },
        GpuCommand::UpdateCursor | GpuCommand::MoveCursor | GpuCommand::SetScanoutBlob => {
            vstd::pervasive::unreached()
        },
    }
}

/// The transfer that `info` describes.
fn transfer_3d(info: TransferHost3d) -> (r: Transfer3D)
    ensures
        r == transfer_of(info),
{
    Transfer3D {
        x: info.box_.x,
        y: info.box_.y,
        z: info.box_.z,
        w: info.box_.w,
        h: info.box_.h,
        d: info.box_.d,
        level: info.level,
        stride: info.stride,
        layer_stride: info.layer_stride,
        offset: info.offset,
    }
}

/// Making a two-dimensional resource is making the flat three-dimensional one: under any
/// headers and with any payloads, the two commands come to the same.
pub proof fn law_create_2d_is_flat_3d<D>(
    flat: ResourceCreate2d,
    hdr: CtrlHdr,
    other_hdr: CtrlHdr,
    payload: Seq<u8>,
    other_payload: Seq<u8>,
    d: Dispatch<D>,
)
    ensures
        dispatches(hdr, GpuCommand::ResourceCreate2d(flat), payload, d) <==> dispatches(
            other_hdr,
            GpuCommand::ResourceCreate3d(
                ResourceCreate3d {
                    resource_id: flat.resource_id,
                    target: PIPE_TEXTURE_2D,
                    format: flat.format,
                    bind: PIPE_BIND_RENDER_TARGET,
                    width: flat.width,
                    height: flat.height,
                    depth: 1,
                    array_size: 1,
                    last_level: 0,
                    nr_samples: 0,
                    flags: 0,
                },
            ),
            other_payload,
            d,
        ),
{
}

/// Sending a rectangle to the host is sending the flat box of that rectangle from context zero,
/// whatever context the header names.
pub proof fn law_transfer_2d_is_flat_3d<D>(
    flat: ResourceRect,
    hdr: CtrlHdr,
    other_hdr: CtrlHdr,
    payload: Seq<u8>,
    other_payload: Seq<u8>,
    d: Dispatch<D>,
)
    requires
        other_hdr.ctx_id == 0,
    ensures
        dispatches(hdr, GpuCommand::TransferToHost2d(flat), payload, d) <==> dispatches(
            other_hdr,
            GpuCommand::TransferToHost3d(
                TransferHost3d {
                    box_: Box3 {
                        x: flat.r.x,
                        y: flat.r.y,
                        z: 0,
                        w: flat.r.width,
                        h: flat.r.height,
                        d: 1,
                    },
                    offset: 0,
                    resource_id: flat.resource_id,
                    level: 0,
                    stride: 0,
                    layer_stride: 0,
                },
            ),
            other_payload,
            d,
        ),
{
}

/// Of the header, a command sees the context alone: fences and rings do not change what it
/// comes to.
pub proof fn law_header_counts_by_context<D>(
    hdr: CtrlHdr,
    other_hdr: CtrlHdr,
    cmd: GpuCommand,
    payload: Seq<u8>,
    d: Dispatch<D>,
)
    requires
        hdr.ctx_id == other_hdr.ctx_id,
    ensures
        dispatches(hdr, cmd, payload, d) <==> dispatches(other_hdr, cmd, payload, d),
{
}

/// Whether a command is followed by a payload.
pub open spec fn takes_payload(cmd: GpuCommand) -> bool {
    cmd is ResourceAttachBacking || cmd is CmdSubmit3d || cmd is ResourceCreateBlob
}

/// A command that takes no payload reads none of it and comes to the same whatever follows it,
/// and it always comes to a call on the device.
pub proof fn law_payload_is_ignored<D>(
    hdr: CtrlHdr,
    cmd: GpuCommand,
    payload: Seq<u8>,
    other_payload: Seq<u8>,
    d: Dispatch<D>,
)
    requires
        !takes_payload(cmd),
    ensures
        dispatches(hdr, cmd, payload, d) <==> dispatches(hdr, cmd, other_payload, d),
        dispatches(hdr, cmd, payload, d) ==> d is Call,
        bytes_read(cmd, payload.len()) == 0,
{
}

/// Two outcomes of one command on one payload agree: they are both replies, and then equal, or
/// both calls of the same kind with the same arguments.
pub proof fn law_dispatch_is_determined<D>(
    hdr: CtrlHdr,
    cmd: GpuCommand,
    payload: Seq<u8>,
    d: Dispatch<D>,
    other: Dispatch<D>,
)
    requires
        dispatches(hdr, cmd, payload, d),
        dispatches(hdr, cmd, payload, other),
    ensures
        same_dispatch(d, other),
{
}

/// Whether two outcomes are the same, lists and names taken by what they hold.
pub open spec fn same_dispatch<D>(d: Dispatch<D>, other: Dispatch<D>) -> bool {
    match (d, other) {
        (
            Dispatch::Call(DeviceCall::AttachBacking { resource_id, vecs }),
            Dispatch::Call(DeviceCall::AttachBacking { resource_id: other_id, vecs: other_vecs }),
        ) => resource_id == other_id && vecs@ == other_vecs@,
        (
            Dispatch::Call(DeviceCall::CreateContext { ctx_id, context_init, context_name }),
            Dispatch::Call(
                DeviceCall::CreateContext {
                    ctx_id: other_ctx,
                    context_init: other_init,
                    context_name: other_name,
                },
            ),
        ) => {
            &&& ctx_id == other_ctx
            &&& context_init == other_init
            &&& match (context_name, other_name) {
                (Some(a), Some(b)) => a@ == b@,
                (None, None) => true,
                _ => false,
            }
        },
        (
            Dispatch::Call(DeviceCall::SubmitCommand { ctx_id, commands, fence_ids }),
            Dispatch::Call(
                DeviceCall::SubmitCommand {
                    ctx_id: other_ctx,
                    commands: other_commands,
                    fence_ids: other_fences,
                },
            ),
        ) => ctx_id == other_ctx && commands@ == other_commands@ && fence_ids@ == other_fences@,
        (
            Dispatch::Call(DeviceCall::ResourceCreateBlob { ctx_id, resource_id, blob, vecs }),
            Dispatch::Call(
                DeviceCall::ResourceCreateBlob {
                    ctx_id: other_ctx,
                    resource_id: other_id,
                    blob: other_blob,
                    vecs: other_vecs,
                },
            ),
        ) => ctx_id == other_ctx && resource_id == other_id && blob == other_blob && vecs@
            == other_vecs@,
        _ => d == other,
    }
}

/// The device is handed the backing that the guest wrote down: the entries in their order,
/// whatever stands behind them. A payload of no bytes at all is refused instead.
pub proof fn law_backing_reaches_device<D>(
    hdr: CtrlHdr,
    info: ResourceAttachBacking,
    entries: Seq<(u64, u32)>,
    tail: Seq<u8>,
    d: Dispatch<D>,
)
    requires
        info.nr_entries == entries.len(),
        (mem_entries_bytes(entries) + tail).len() > 0,
        dispatches(
            hdr,
            GpuCommand::ResourceAttachBacking(info),
            mem_entries_bytes(entries) + tail,
            d,
        ),
    ensures
        d matches Dispatch::Call(DeviceCall::AttachBacking { resource_id, vecs }) && resource_id
            == info.resource_id && vecs@ == Seq::new(
            entries.len(),
            |i: int| (entries[i].0, entries[i].1 as usize),
        ),
{
    law_mem_entries_round_trip(entries, tail);
}

/// The device is handed the backing that the guest wrote down for a blob, which may be none.
pub proof fn law_blob_backing_reaches_device<D>(
    hdr: CtrlHdr,
    info: CreateBlob,
    entries: Seq<(u64, u32)>,
    tail: Seq<u8>,
    d: Dispatch<D>,
)
    requires
        info.nr_entries == entries.len(),
        dispatches(
            hdr,
            GpuCommand::ResourceCreateBlob(info),
            mem_entries_bytes(entries) + tail,
            d,
        ),
    ensures
        d matches Dispatch::Call(
            DeviceCall::ResourceCreateBlob { ctx_id, resource_id, vecs, .. },
        ) && ctx_id == hdr.ctx_id && resource_id == info.resource_id && vecs@ == Seq::new(
            entries.len(),
            |i: int| (entries[i].0, entries[i].1 as usize),
        ),
{
    law_mem_entries_round_trip(entries, tail);
}

/// The device is handed the commands that the guest submitted: the fences to wait for and the
/// command bytes behind them, whatever stands after those.
pub proof fn law_submission_reaches_device<D>(
    hdr: CtrlHdr,
    info: CmdSubmit,
    fences: Seq<u64>,
    commands: Seq<u8>,
    tail: Seq<u8>,
    d: Dispatch<D>,
)
    requires
        info.num_in_fences == fences.len(),
        info.size == commands.len(),
        (fence_ids_bytes(fences) + commands + tail).len() > 0,
        dispatches(
            hdr,
            GpuCommand::CmdSubmit3d(info),
            fence_ids_bytes(fences) + commands + tail,
            d,
        ),
    ensures
        d matches Dispatch::Call(
            DeviceCall::SubmitCommand { ctx_id, commands: submitted, fence_ids },
        ) && ctx_id == hdr.ctx_id && submitted@ == commands && fence_ids@ == fences,
{
    let payload = fence_ids_bytes(fences) + commands + tail;
    law_fence_ids_round_trip(fences, commands + tail);
    assert(fence_ids_bytes(fences) + (commands + tail) =~= payload);
    let at = FENCE_ID_LEN * info.num_in_fences;
    assert(payload.subrange(at, at + info.size) =~= commands);
}

} // verus!
