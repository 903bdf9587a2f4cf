use krun_host::command::{process_gpu_command, Dispatch};
use krun_host::protocol::{
    Box3, CmdSubmit, CreateBlob, CtrlHdr, CtxCreate, DeviceCall, GetCapset, GetCapsetInfo, GetEdid,
    GpuCommand, GpuResponse, MapBlob, Rect, ResourceAttachBacking, ResourceCreate2d,
    ResourceCreate3D, ResourceCreate3d, ResourceCreateBlob, ResourceRect, ResourceRef, SetScanout,
    Transfer3D, TransferHost3d, DEBUG_NAME_LEN,
};
use krun_host::reader::Reader;

const HDR: CtrlHdr = CtrlHdr { flags: 3, fence_id: 99, ctx_id: 5, ring_idx: 2 };

fn run(cmd: GpuCommand, payload: &[u8]) -> Dispatch<u8> {
    let mut reader = Reader::new(payload);
    process_gpu_command(HDR, cmd, &mut reader)
}

fn call(cmd: GpuCommand) -> DeviceCall {
    match run(cmd, &[]) {
        Dispatch::Call(call) => call,
        other => panic!("no call: {other:?}"),
    }
}

fn entries(list: &[(u64, u32)]) -> Vec<u8> {
    let mut bytes = Vec::new();
    for (addr, len) in list {
        bytes.extend_from_slice(&addr.to_le_bytes());
        bytes.extend_from_slice(&len.to_le_bytes());
        bytes.extend_from_slice(&[0; 4]);
    }
    bytes
}

fn err_unspec() -> Dispatch<u8> {
    Dispatch::Reply(Err(GpuResponse::ErrUnspec))
}

#[test]
fn plain_commands_become_their_calls() {
    let r = Rect { x: 1, y: 2, width: 3, height: 4 };
    let id = ResourceRef { resource_id: 7 };
    assert_eq!(call(GpuCommand::GetDisplayInfo), DeviceCall::DisplayInfo);
    assert_eq!(call(GpuCommand::GetEdid(GetEdid { scanout: 1 })), DeviceCall::GetEdid { scanout: 1 });
    assert_eq!(call(GpuCommand::ResourceUnref(id)), DeviceCall::UnrefResource { resource_id: 7 });
    assert_eq!(
        call(GpuCommand::SetScanout(SetScanout { r, scanout_id: 8, resource_id: 7 })),
        DeviceCall::SetScanout { scanout_id: 8, resource_id: 7, width: 3, height: 4 }
    );
    assert_eq!(
        call(GpuCommand::ResourceFlush(ResourceRect { r, resource_id: 7 })),
        DeviceCall::FlushResource { resource_id: 7, rect: r }
    );
    assert_eq!(
        call(GpuCommand::ResourceDetachBacking(id)),
        DeviceCall::DetachBacking { resource_id: 7 }
    );
    assert_eq!(
        call(GpuCommand::ResourceAssignUuid(id)),
        DeviceCall::ResourceAssignUuid { resource_id: 7 }
    );
    assert_eq!(
        call(GpuCommand::GetCapsetInfo(GetCapsetInfo { capset_index: 3 })),
        DeviceCall::GetCapsetInfo { index: 3 }
    );
    assert_eq!(
        call(GpuCommand::GetCapset(GetCapset { capset_id: 4, capset_version: 1 })),
        DeviceCall::GetCapset { capset_id: 4, version: 1 }
    );
    assert_eq!(
        call(GpuCommand::ResourceMapBlob(MapBlob { resource_id: 7, offset: 0x1_0000_0000 })),
        DeviceCall::ResourceMapBlob { resource_id: 7, offset: 0x1_0000_0000 }
    );
    assert_eq!(
        call(GpuCommand::ResourceUnmapBlob(id)),
        DeviceCall::ResourceUnmapBlob { resource_id: 7 }
    );
}

#[test]
fn context_commands_take_the_context_of_the_header() {
    let id = ResourceRef { resource_id: 7 };
    assert_eq!(call(GpuCommand::CtxDestroy), DeviceCall::DestroyContext { ctx_id: 5 });
    assert_eq!(
        call(GpuCommand::CtxAttachResource(id)),
        DeviceCall::ContextAttachResource { ctx_id: 5, resource_id: 7 }
    );
    assert_eq!(
        call(GpuCommand::CtxDetachResource(id)),
        DeviceCall::ContextDetachResource { ctx_id: 5, resource_id: 7 }
    );
}

#[test]
fn a_context_name_is_the_whole_debug_name() {
    let mut debug_name = [0u8; DEBUG_NAME_LEN];
    debug_name[..5].copy_from_slice("m\u{e9}sa".as_bytes());
    let made = call(GpuCommand::CtxCreate(CtxCreate { context_init: 6, debug_name }));
    let mut name = String::from("m\u{e9}sa");
    for _ in 5..DEBUG_NAME_LEN {
        name.push('\0');
    }
    assert_eq!(
        made,
        DeviceCall::CreateContext { ctx_id: 5, context_init: 6, context_name: Some(name) }
    );
}

#[test]
fn a_context_name_that_is_not_utf8_is_dropped() {
    let mut debug_name = [b'a'; DEBUG_NAME_LEN];
    debug_name[63] = 0xc3;
    assert_eq!(
        call(GpuCommand::CtxCreate(CtxCreate { context_init: 0, debug_name })),
        DeviceCall::CreateContext { ctx_id: 5, context_init: 0, context_name: None }
    );
}

#[test]
fn a_2d_resource_is_a_flat_3d_resource() {
    let flat = call(GpuCommand::ResourceCreate2d(ResourceCreate2d {
        resource_id: 7,
        format: 67,
        width: 640,
        height: 480,
    }));
    assert_eq!(
        flat,
        DeviceCall::ResourceCreate3d {
            resource_id: 7,
            args: ResourceCreate3D {
                target: 2,
                format: 67,
                bind: 2,
                width: 640,
                height: 480,
                depth: 1,
                array_size: 1,
                last_level: 0,
                nr_samples: 0,
                flags: 0,
            },
        }
    );
    let deep = call(GpuCommand::ResourceCreate3d(ResourceCreate3d {
        resource_id: 7,
        target: 2,
        format: 67,
        bind: 2,
        width: 640,
        height: 480,
        depth: 1,
        array_size: 1,
        last_level: 0,
        nr_samples: 0,
        flags: 0,
    }));
    assert_eq!(flat, deep);
}

#[test]
fn a_3d_resource_keeps_every_field() {
    let made = call(GpuCommand::ResourceCreate3d(ResourceCreate3d {
        resource_id: 1,
        target: 2,
        format: 3,
        bind: 4,
        width: 5,
        height: 6,
        depth: 7,
        array_size: 8,
        last_level: 9,
        nr_samples: 10,
        flags: 11,
    }));
    assert_eq!(
        made,
        DeviceCall::ResourceCreate3d {
            resource_id: 1,
            args: ResourceCreate3D {
                target: 2,
                format: 3,
                bind: 4,
                width: 5,
                height: 6,
                depth: 7,
                array_size: 8,
                last_level: 9,
                nr_samples: 10,
                flags: 11,
            },
        }
    );
}

#[test]
fn a_2d_transfer_is_flat_and_from_context_zero() {
    let r = Rect { x: 10, y: 20, width: 30, height: 40 };
    assert_eq!(
        call(GpuCommand::TransferToHost2d(ResourceRect { r, resource_id: 7 })),
        DeviceCall::TransferWrite {
            ctx_id: 0,
            resource_id: 7,
            transfer: Transfer3D {
                x: 10,
                y: 20,
                z: 0,
                w: 30,
                h: 40,
                d: 1,
                level: 0,
                stride: 0,
                layer_stride: 0,
                offset: 0,
            },
        }
    );
}

#[test]
fn a_3d_transfer_goes_both_ways() {
    let info = TransferHost3d {
        box_: Box3 { x: 1, y: 2, z: 3, w: 4, h: 5, d: 6 },
        offset: 7,
        resource_id: 8,
        level: 9,
        stride: 10,
        layer_stride: 11,
    };
    let transfer = Transfer3D {
        x: 1,
        y: 2,
        z: 3,
        w: 4,
        h: 5,
        d: 6,
        level: 9,
        stride: 10,
        layer_stride: 11,
        offset: 7,
    };
    assert_eq!(
        call(GpuCommand::TransferToHost3d(info)),
        DeviceCall::TransferWrite { ctx_id: 5, resource_id: 8, transfer }
    );
    assert_eq!(
        call(GpuCommand::TransferFromHost3d(info)),
        DeviceCall::TransferRead { ctx_id: 5, resource_id: 8, transfer }
    );
}

#[test]
fn backing_reaches_the_device() {
    let cmd = GpuCommand::ResourceAttachBacking(ResourceAttachBacking {
        resource_id: 7,
        nr_entries: 2,
    });
    let mut payload = entries(&[(0x1000, 4096), (0x8000_0000_0000, u32::MAX)]);
    payload.extend_from_slice(&[1, 2, 3]);
    let mut reader = Reader::new(&payload);
    let d: Dispatch<u8> = process_gpu_command(HDR, cmd, &mut reader);
    assert_eq!(
        d,
        Dispatch::Call(DeviceCall::AttachBacking {
            resource_id: 7,
            vecs: vec![(0x1000, 4096), (0x8000_0000_0000, u32::MAX as usize)],
        })
    );
    assert_eq!(reader.available_bytes(), 3);
}

#[test]
fn backing_without_payload_is_an_unspecified_error() {
    let none = ResourceAttachBacking { resource_id: 7, nr_entries: 0 };
    let one = ResourceAttachBacking { resource_id: 7, nr_entries: 1 };
    assert_eq!(run(GpuCommand::ResourceAttachBacking(none), &[]), err_unspec());
    assert_eq!(run(GpuCommand::ResourceAttachBacking(one), &[]), err_unspec());
    assert_eq!(run(GpuCommand::ResourceAttachBacking(one), &[0; 15]), err_unspec());
    assert_eq!(
        run(GpuCommand::ResourceAttachBacking(none), &[0]),
        Dispatch::Call(DeviceCall::AttachBacking { resource_id: 7, vecs: vec![] })
    );
}

#[test]
fn submission_reaches_the_device() {
    let mut payload = 3u64.to_le_bytes().to_vec();
    payload.extend_from_slice(&u64::MAX.to_le_bytes());
    payload.extend_from_slice(&[0xaa, 0xbb, 0xcc, 0xdd]);
    let cmd = GpuCommand::CmdSubmit3d(CmdSubmit { size: 3, num_in_fences: 2 });
    let mut reader = Reader::new(&payload);
    let d: Dispatch<u8> = process_gpu_command(HDR, cmd, &mut reader);
    assert_eq!(
        d,
        Dispatch::Call(DeviceCall::SubmitCommand {
            ctx_id: 5,
            commands: vec![0xaa, 0xbb, 0xcc],
            fence_ids: vec![3, u64::MAX],
        })
    );
    assert_eq!(reader.available_bytes(), 1);
}

#[test]
fn submission_without_payload_is_accepted_in_silence() {
    let cmd = GpuCommand::CmdSubmit3d(CmdSubmit { size: 100, num_in_fences: 100 });
    assert_eq!(run(cmd, &[]), Dispatch::Reply(Ok(GpuResponse::OkNoData)));
}

#[test]
fn submission_with_fences_cut_short_is_an_unspecified_error() {
    let cmd = GpuCommand::CmdSubmit3d(CmdSubmit { size: 0, num_in_fences: 2 });
    assert_eq!(run(cmd, &[0; 15]), err_unspec());
}

#[test]
fn submission_with_commands_cut_short_is_an_invalid_parameter() {
    let cmd = GpuCommand::CmdSubmit3d(CmdSubmit { size: 4, num_in_fences: 1 });
    assert_eq!(run(cmd, &[0; 11]), Dispatch::Reply(Err(GpuResponse::ErrInvalidParameter)));
    let huge = GpuCommand::CmdSubmit3d(CmdSubmit { size: u32::MAX, num_in_fences: 0 });
    assert_eq!(run(huge, &[1]), Dispatch::Reply(Err(GpuResponse::ErrInvalidParameter)));
}

#[test]
fn blob_takes_its_backing_from_the_payload() {
    let mut info = CreateBlob {
        resource_id: 7,
        blob_mem: 1,
        blob_flags: 2,
        nr_entries: 1,
        blob_id: 3,
        size: 4,
    };
    let blob = ResourceCreateBlob { blob_mem: 1, blob_flags: 2, blob_id: 3, size: 4 };
    assert_eq!(
        run(GpuCommand::ResourceCreateBlob(info), &entries(&[(9, 10)])),
        Dispatch::Call(DeviceCall::ResourceCreateBlob {
            ctx_id: 5,
            resource_id: 7,
            blob,
            vecs: vec![(9, 10)],
        })
    );
    assert_eq!(run(GpuCommand::ResourceCreateBlob(info), &[]), err_unspec());
    assert_eq!(run(GpuCommand::ResourceCreateBlob(info), &[0; 15]), err_unspec());
    info.nr_entries = 0;
    assert_eq!(
        run(GpuCommand::ResourceCreateBlob(info), &[]),
        Dispatch::Call(DeviceCall::ResourceCreateBlob {
            ctx_id: 5,
            resource_id: 7,
            blob,
            vecs: vec![],
        })
    );
}

#[test]
fn payload_behind_other_commands_is_left_alone() {
    let mut reader = Reader::new(&[1, 2, 3]);
    let d: Dispatch<u8> = process_gpu_command(HDR, GpuCommand::GetDisplayInfo, &mut reader);
    assert_eq!(d, Dispatch::Call(DeviceCall::DisplayInfo));
    assert_eq!(reader.available_bytes(), 3);
}

#[test]
fn fences_of_the_header_do_not_change_the_call() {
    let bare = CtrlHdr { flags: 0, fence_id: 0, ctx_id: 5, ring_idx: 0 };
    let mut reader = Reader::new(&[]);
    let d: Dispatch<u8> = process_gpu_command(bare, GpuCommand::CtxDestroy, &mut reader);
    assert_eq!(d, run(GpuCommand::CtxDestroy, &[]));
}

#[test]
fn three_commands_are_not_supported() {
    assert!(!GpuCommand::UpdateCursor.is_supported());
    assert!(!GpuCommand::MoveCursor.is_supported());
    assert!(!GpuCommand::SetScanoutBlob.is_supported());
    assert!(GpuCommand::GetDisplayInfo.is_supported());
    assert!(GpuCommand::CtxDestroy.is_supported());
}

#[test]
fn the_same_command_comes_to_the_same() {
    let cmd = GpuCommand::CmdSubmit3d(CmdSubmit { size: 1, num_in_fences: 1 });
    let payload = [7; 9];
    assert_eq!(run(cmd, &payload), run(cmd, &payload));
    assert_ne!(run(cmd, &payload), run(cmd, &[8; 9]));
}
