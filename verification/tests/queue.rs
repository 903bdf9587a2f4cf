use krun_host::protocol::{CmdSubmit, CtrlHdr, DeviceCall, GpuCommand, GpuResponse, GpuResult};
use krun_host::queue::{process_queue, Chain, FenceFields, QueueStep, VirtioGpuRing};
use krun_host::reader::Reader;

/// What the guest sends in one chain.
struct Request {
    chain: Chain,
    command: Option<(CtrlHdr, GpuCommand, Vec<u8>)>,
}

/// A device that answers by rote and writes down what it was asked.
struct Device {
    result: fn() -> GpuResult<u8>,
    fence_result: fn() -> Result<(), GpuResponse<u8>>,
    written: Option<u32>,
    signaled: bool,
}

const DEVICE: Device = Device {
    result: || Ok(GpuResponse::Device(1)),
    fence_result: || Ok(()),
    written: Some(24),
    signaled: true,
};

fn hdr(flags: u32) -> CtrlHdr {
    CtrlHdr { flags, fence_id: 77, ctx_id: 5, ring_idx: 3 }
}

fn request(index: u16, writable: usize, flags: u32) -> Request {
    Request {
        chain: Chain { index, writable },
        command: Some((hdr(flags), GpuCommand::GetDisplayInfo, vec![])),
    }
}

/// Drains a queue of `requests`. Gives what was done, and the result.
fn drain(requests: Vec<Request>, device: &Device) -> (Vec<String>, bool) {
    let mut log = Vec::new();
    let mut requests = requests.into_iter();
    let mut current = None;
    let mut step: QueueStep<u8> = process_queue();
    loop {
        step = match step {
            QueueStep::Pop { then } => match requests.next() {
                Some(r) => {
                    let chain = r.chain;
                    current = Some(r);
                    then.popped(Some(chain))
                }
                None => then.popped(None),
            },
            QueueStep::Decode { chain, then } => {
                let r = current.take().unwrap();
                assert_eq!(chain, r.chain);
                match r.command {
                    Some((hdr, cmd, payload)) => {
                        then.decoded(hdr, cmd, &mut Reader::new(&payload))
                    }
                    None => then.undecoded(),
                }
            }
            QueueStep::ForceContextZero { then } => {
                log.push(String::from("context 0"));
                then.forced()
            }
            QueueStep::Execute { call, then } => {
                log.push(format!("call {call:?}"));
                then.executed((device.result)())
            }
            QueueStep::CreateFence { fence, then } => {
                log.push(format!("create fence {}", fence.fence_id));
                assert_eq!(fence.ctx_id, 5);
                assert_eq!(fence.ring_idx, 3);
                then.fence_created((device.fence_result)())
            }
            QueueStep::Encode { response, fence, then } => {
                log.push(format!("respond {response:?} {} {}", fence.flags, fence.fence_id));
                then.encoded(device.written)
            }
            QueueStep::ProcessFence { ring, fence_id, index, len, then } => {
                log.push(format!("process fence {ring:?} {fence_id} {index} {len}"));
                then.fence_processed(device.signaled)
            }
            QueueStep::AddUsed { index, len, then } => {
                log.push(format!("used {index} {len}"));
                then.used_added()
            }
            QueueStep::Done { used_any } => return (log, used_any),
        };
    }
}

#[test]
fn an_empty_queue_uses_nothing() {
    assert_eq!(drain(vec![], &DEVICE), (vec![], false));
}

#[test]
fn a_command_is_run_answered_and_given_back() {
    let (log, used) = drain(vec![request(4, 512, 0)], &DEVICE);
    assert_eq!(
        log,
        ["context 0", "call DisplayInfo", "respond Device(1) 0 0", "used 4 24"]
    );
    assert!(used);
}

#[test]
fn a_failed_command_is_answered_with_its_response() {
    let device = Device { result: || Err(GpuResponse::Device(9)), ..DEVICE };
    let (log, used) = drain(vec![request(4, 512, 0)], &device);
    assert_eq!(
        log,
        ["context 0", "call DisplayInfo", "respond Device(9) 0 0", "used 4 24"]
    );
    assert!(used);
}

#[test]
fn a_chain_that_cannot_be_decoded_is_an_unspecified_error() {
    let r = Request { chain: Chain { index: 2, writable: 24 }, command: None };
    assert_eq!(
        drain(vec![r], &DEVICE),
        (vec![String::from("respond ErrUnspec 0 0"), String::from("used 2 24")], true)
    );
}

#[test]
fn a_chain_without_room_is_given_back_empty() {
    let (log, used) = drain(vec![request(6, 0, 1)], &DEVICE);
    assert_eq!(log, ["context 0", "call DisplayInfo", "used 6 0"]);
    assert!(used);
    let r = Request { chain: Chain { index: 2, writable: 0 }, command: None };
    assert_eq!(drain(vec![r], &DEVICE).0, ["used 2 0"]);
}

#[test]
fn a_reply_without_a_call_still_forces_context_zero() {
    let r = Request {
        chain: Chain { index: 1, writable: 24 },
        command: Some((
            hdr(0),
            GpuCommand::CmdSubmit3d(CmdSubmit { size: 0, num_in_fences: 0 }),
            vec![],
        )),
    };
    assert_eq!(drain(vec![r], &DEVICE).0, ["context 0", "respond OkNoData 0 0", "used 1 24"]);
}

#[test]
fn the_payload_reaches_the_call() {
    let r = Request {
        chain: Chain { index: 1, writable: 24 },
        command: Some((
            hdr(0),
            GpuCommand::CmdSubmit3d(CmdSubmit { size: 2, num_in_fences: 0 }),
            vec![8, 9],
        )),
    };
    let call = DeviceCall::SubmitCommand { ctx_id: 5, commands: vec![8, 9], fence_ids: vec![] };
    assert_eq!(drain(vec![r], &DEVICE).0[1], format!("call {call:?}"));
}

#[test]
fn a_signaled_fence_gives_the_chain_back() {
    let (log, used) = drain(vec![request(4, 512, 1)], &DEVICE);
    assert_eq!(
        log,
        [
            "context 0",
            "call DisplayInfo",
            "create fence 77",
            "respond Device(1) 1 77",
            "process fence Global 77 4 24",
            "used 4 24",
        ]
    );
    assert!(used);
}

#[test]
fn a_waiting_fence_keeps_the_chain() {
    let device = Device { signaled: false, ..DEVICE };
    let (log, used) = drain(vec![request(4, 512, 3)], &device);
    let ring = VirtioGpuRing::ContextSpecific { ctx_id: 5, ring_idx: 3 };
    assert_eq!(log.last().unwrap(), &format!("process fence {ring:?} 77 4 24"));
    assert!(!used);
}

#[test]
fn a_ring_without_a_fence_is_no_fence() {
    let (log, used) = drain(vec![request(4, 512, 2)], &DEVICE);
    assert_eq!(
        log,
        ["context 0", "call DisplayInfo", "respond Device(1) 0 0", "used 4 24"]
    );
    assert!(used);
}

#[test]
fn a_fence_that_cannot_be_created_replaces_the_response() {
    let device = Device { fence_result: || Err(GpuResponse::Device(8)), ..DEVICE };
    let (log, _) = drain(vec![request(4, 512, 1)], &device);
    assert_eq!(
        log[2..],
        [
            "create fence 77",
            "respond Device(8) 1 77",
            "process fence Global 77 4 24",
            "used 4 24",
        ]
    );
}

#[test]
fn a_response_that_cannot_be_written_has_length_zero() {
    let device = Device { written: None, ..DEVICE };
    assert_eq!(drain(vec![request(4, 512, 0)], &device).0[3], "used 4 0");
    assert_eq!(
        drain(vec![request(4, 512, 1)], &device).0[4..],
        ["process fence Global 77 4 0", "used 4 0"]
    );
}

#[test]
fn every_chain_is_settled_once_and_in_order() {
    let device = Device { signaled: false, ..DEVICE };
    let requests = vec![
        request(9, 24, 0),
        request(3, 24, 1),
        request(5, 0, 1),
        Request { chain: Chain { index: 7, writable: 24 }, command: None },
    ];
    let (log, used) = drain(requests, &device);
    let settled: Vec<&str> = log
        .iter()
        .filter(|l| l.starts_with("used") || l.starts_with("process fence"))
        .map(|l| l.as_str())
        .collect();
    assert_eq!(settled, ["used 9 24", "process fence Global 77 3 24", "used 5 0", "used 7 24"]);
    assert_eq!(log.iter().filter(|l| l.starts_with("respond")).count(), 3);
    assert_eq!(log.iter().filter(|l| l.starts_with("create fence")).count(), 1);
    assert!(used);
}

#[test]
fn an_earlier_chain_counts_although_the_last_one_waits() {
    let device = Device { signaled: false, ..DEVICE };
    assert!(drain(vec![request(1, 24, 0), request(2, 24, 1)], &device).1);
    assert!(!drain(vec![request(1, 24, 1), request(2, 24, 1)], &device).1);
}

#[test]
fn fence_fields_are_those_of_the_header() {
    let step: QueueStep<u8> = process_queue();
    let QueueStep::Pop { then } = step else { panic!("no pop") };
    let step: QueueStep<u8> = then.popped(Some(Chain { index: 1, writable: 1 }));
    let QueueStep::Decode { then, .. } = step else { panic!("no decode") };
    let step: QueueStep<u8> =
        then.decoded(hdr(0xff), GpuCommand::GetDisplayInfo, &mut Reader::new(&[]));
    let QueueStep::ForceContextZero { then } = step else { panic!("no context") };
    let QueueStep::Execute { then, .. } = then.forced() else { panic!("no call") };
    let step: QueueStep<u8> = then.executed(Ok(GpuResponse::OkNoData));
    let QueueStep::CreateFence { fence, .. } = step else { panic!("no fence") };
    assert_eq!(fence, FenceFields { flags: 0xff, fence_id: 77, ctx_id: 5, ring_idx: 3 });
}

#[test]
fn each_chain_gets_its_own_response() {
    let device = Device { fence_result: || Err(GpuResponse::Device(8)), ..DEVICE };
    let empty_submit = GpuCommand::CmdSubmit3d(CmdSubmit { size: 0, num_in_fences: 0 });
    let requests = vec![
        request(1, 24, 1),
        Request { chain: Chain { index: 2, writable: 24 }, command: None },
        Request {
            chain: Chain { index: 3, writable: 24 },
            command: Some((hdr(0), empty_submit, vec![])),
        },
        request(4, 24, 0),
    ];
    let (log, _) = drain(requests, &device);
    let responses: Vec<&str> =
        log.iter().filter(|l| l.starts_with("respond")).map(|l| l.as_str()).collect();
    assert_eq!(
        responses,
        [
            "respond Device(8) 1 77",
            "respond ErrUnspec 0 0",
            "respond OkNoData 0 0",
            "respond Device(1) 0 0",
        ]
    );
}
