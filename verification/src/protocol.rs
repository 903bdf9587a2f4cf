//! The plain values of the virtio-gpu control queue.

use vstd::prelude::*;

verus! {

/// Header flag: the guest wants the response held back until the fence is signaled.
pub const VIRTIO_GPU_FLAG_FENCE: u32 = 0x1;

/// Header flag: the fence lives on a ring of the context, named by `ring_idx`.
pub const VIRTIO_GPU_FLAG_INFO_RING_IDX: u32 = 0x2;

/// Number of bytes of a context's debug name.
pub const DEBUG_NAME_LEN: usize = 64;

/// What the worker reads of the header that stands before every command.
#[derive(Clone, Copy, Debug, PartialEq, Eq, Structural)]
pub struct CtrlHdr {
    pub flags: u32,
    pub fence_id: u64,
    pub ctx_id: u32,
    pub ring_idx: u8,
}

/// A rectangle of pixels.
#[derive(Clone, Copy, Debug, PartialEq, Eq, Structural)]
pub struct Rect {
    pub x: u32,
    pub y: u32,
    pub width: u32,
    pub height: u32,
}

/// A box of texels.
#[derive(Clone, Copy, Debug, PartialEq, Eq, Structural)]
pub struct Box3 {
    pub x: u32,
    pub y: u32,
    pub z: u32,
    pub w: u32,
    pub h: u32,
    pub d: u32,
}

#[derive(Clone, Copy, Debug, PartialEq, Eq, Structural)]
pub struct GetEdid {
    pub scanout: u32,
}

#[derive(Clone, Copy, Debug, PartialEq, Eq, Structural)]
pub struct ResourceCreate2d {
    pub resource_id: u32,
    pub format: u32,
    pub width: u32,
    pub height: u32,
}

/// The body of a command that names one resource and nothing else.
#[derive(Clone, Copy, Debug, PartialEq, Eq, Structural)]
pub struct ResourceRef {
    pub resource_id: u32,
}

#[derive(Clone, Copy, Debug, PartialEq, Eq, Structural)]
pub struct SetScanout {
    pub r: Rect,
    pub scanout_id: u32,
    pub resource_id: u32,
}

/// The body of a command on a rectangle of a resource.
#[derive(Clone, Copy, Debug, PartialEq, Eq, Structural)]
pub struct ResourceRect {
    pub r: Rect,
    pub resource_id: u32,
}

#[derive(Clone, Copy, Debug, PartialEq, Eq, Structural)]
pub struct ResourceAttachBacking {
    pub resource_id: u32,
    pub nr_entries: u32,
}

#[derive(Clone, Copy, Debug, PartialEq, Eq, Structural)]
pub struct GetCapsetInfo {
    pub capset_index: u32,
}

#[derive(Clone, Copy, Debug, PartialEq, Eq, Structural)]
pub struct GetCapset {
    pub capset_id: u32,
    pub capset_version: u32,
}

#[derive(Clone, Copy, Debug)]
pub struct CtxCreate {
    pub context_init: u32,
    pub debug_name: [u8; DEBUG_NAME_LEN],
}

#[derive(Clone, Copy, Debug, PartialEq, Eq, Structural)]
pub struct ResourceCreate3d {
    pub resource_id: u32,
    pub target: u32,
    pub format: u32,
    pub bind: u32,
    pub width: u32,
    pub height: u32,
    pub depth: u32,
    pub array_size: u32,
    pub last_level: u32,
    pub nr_samples: u32,
    pub flags: u32,
}

#[derive(Clone, Copy, Debug, PartialEq, Eq, Structural)]
pub struct TransferHost3d {
    pub box_: Box3,
    pub offset: u64,
    pub resource_id: u32,
    pub level: u32,
    pub stride: u32,
    pub layer_stride: u32,
}

#[derive(Clone, Copy, Debug, PartialEq, Eq, Structural)]
pub struct CmdSubmit {
    pub size: u32,
    pub num_in_fences: u32,
}

#[derive(Clone, Copy, Debug, PartialEq, Eq, Structural)]
pub struct CreateBlob {
    pub resource_id: u32,
    pub blob_mem: u32,
    pub blob_flags: u32,
    pub nr_entries: u32,
    pub blob_id: u64,
    pub size: u64,
}

#[derive(Clone, Copy, Debug, PartialEq, Eq, Structural)]
pub struct MapBlob {
    pub resource_id: u32,
    pub offset: u64,
}

/// A command of the guest, as it stands in the descriptor chain before its payload.
#[derive(Clone, Copy, Debug)]
pub enum GpuCommand {
    GetDisplayInfo,
    GetEdid(GetEdid),
    ResourceCreate2d(ResourceCreate2d),
    ResourceUnref(ResourceRef),
    SetScanout(SetScanout),
    ResourceFlush(ResourceRect),
    TransferToHost2d(ResourceRect),
    ResourceAttachBacking(ResourceAttachBacking),
    ResourceDetachBacking(ResourceRef),
    UpdateCursor,
    MoveCursor,
    ResourceAssignUuid(ResourceRef),
    GetCapsetInfo(GetCapsetInfo),
    GetCapset(GetCapset),
    CtxCreate(CtxCreate),
    CtxDestroy,
    CtxAttachResource(ResourceRef),
    CtxDetachResource(ResourceRef),
    ResourceCreate3d(ResourceCreate3d),
    TransferToHost3d(TransferHost3d),
    TransferFromHost3d(TransferHost3d),
    CmdSubmit3d(CmdSubmit),
    ResourceCreateBlob(CreateBlob),
    SetScanoutBlob,
    ResourceMapBlob(MapBlob),
    ResourceUnmapBlob(ResourceRef),
}

impl GpuCommand {
    /// Whether the worker knows what to do with the command. Cursor commands and scanout of a
    /// blob are not implemented.
    pub open spec fn supported(self) -> bool {
        !(self is UpdateCursor || self is MoveCursor || self is SetScanoutBlob)
    }

    /// Tells whether the worker knows what to do with the command.
    pub fn is_supported(&self) -> (r: bool)
        ensures
            r == self.supported(),
    {
        match self {
            GpuCommand::UpdateCursor | GpuCommand::MoveCursor | GpuCommand::SetScanoutBlob => false,
            _ => true,
        }
    }
}

/// A response to the guest. The worker gives three of them by itself; every other one, with
/// whatever it carries, comes from the device.
#[derive(Debug, PartialEq, Eq)]
pub enum GpuResponse<D> {
    OkNoData,
    ErrUnspec,
    ErrInvalidParameter,
    Device(D),
}

/// How a command ended: with a response either way.
pub type GpuResult<D> = Result<GpuResponse<D>, GpuResponse<D>>;

/// How a three-dimensional resource is to be made.
#[derive(Clone, Copy, Debug, PartialEq, Eq, Structural)]
pub struct ResourceCreate3D {
    pub target: u32,
    pub format: u32,
    pub bind: u32,
    pub width: u32,
    pub height: u32,
    pub depth: u32,
    pub array_size: u32,
    pub last_level: u32,
    pub nr_samples: u32,
    pub flags: u32,
}

/// How a blob resource is to be made.
#[derive(Clone, Copy, Debug, PartialEq, Eq, Structural)]
pub struct ResourceCreateBlob {
    pub blob_mem: u32,
    pub blob_flags: u32,
    pub blob_id: u64,
    pub size: u64,
}

/// Which texels move between the guest's memory and a resource, and how they lie there.
#[derive(Clone, Copy, Debug, PartialEq, Eq, Structural)]
pub struct Transfer3D {
    pub x: u32,
    pub y: u32,
    pub z: u32,
    pub w: u32,
    pub h: u32,
    pub d: u32,
    pub level: u32,
    pub stride: u32,
    pub layer_stride: u32,
    pub offset: u64,
}

/// One call on the device, with its arguments. Guest memory is named by address and length.
#[derive(Debug, PartialEq, Eq)]
pub enum DeviceCall {
    DisplayInfo,
    GetEdid { scanout: u32 },
    ResourceCreate3d { resource_id: u32, args: ResourceCreate3D },
    UnrefResource { resource_id: u32 },
    SetScanout { scanout_id: u32, resource_id: u32, width: u32, height: u32 },
    FlushResource { resource_id: u32, rect: Rect },
    TransferWrite { ctx_id: u32, resource_id: u32, transfer: Transfer3D },
    TransferRead { ctx_id: u32, resource_id: u32, transfer: Transfer3D },
    AttachBacking { resource_id: u32, vecs: Vec<(u64, usize)> },
    DetachBacking { resource_id: u32 },
    ResourceAssignUuid { resource_id: u32 },
    GetCapsetInfo { index: u32 },
    GetCapset { capset_id: u32, version: u32 },
    CreateContext { ctx_id: u32, context_init: u32, context_name: Option<String> },
    DestroyContext { ctx_id: u32 },
    ContextAttachResource { ctx_id: u32, resource_id: u32 },
    ContextDetachResource { ctx_id: u32, resource_id: u32 },
    SubmitCommand { ctx_id: u32, commands: Vec<u8>, fence_ids: Vec<u64> },
    ResourceCreateBlob {
        ctx_id: u32,
        resource_id: u32,
        blob: ResourceCreateBlob,
        vecs: Vec<(u64, usize)>,
    },
    ResourceMapBlob { resource_id: u32, offset: u64 },
    ResourceUnmapBlob { resource_id: u32 },
}

/// Three commands are not implemented, and every other one is.
pub proof fn law_three_commands_are_not_implemented(cmd: GpuCommand, r: bool)
    requires
        call_ensures(GpuCommand::is_supported, (&cmd,), r),
    ensures
        cmd is UpdateCursor ==> !r,
        cmd is MoveCursor ==> !r,
        cmd is SetScanoutBlob ==> !r,
        !(cmd is UpdateCursor) && !(cmd is MoveCursor) && !(cmd is SetScanoutBlob) ==> r,
{
}

} // verus!
