use krun_host::worker::{PollFd, WorkStep, Worker};

const CONTROL: i32 = 11;
const VIRGL: i32 = 12;

/// The actions of one turn, by name.
fn turn(worker: &Worker, ret: i32, events: (i16, i16), read: bool, used: bool) -> Vec<&'static str> {
    let mut actions = Vec::new();
    let mut step = worker.polled(ret, events.0, events.1);
    loop {
        step = match step {
            WorkStep::Poll => return actions,
            WorkStep::RetireAfterTimeout { then } => {
                actions.push("retire");
                then.retired()
            }
            WorkStep::ReadControlEvent { then } => {
                actions.push("read");
                then.control_read(read)
            }
            WorkStep::ProcessQueue { then } => {
                actions.push("process");
                then.processed(used)
            }
            WorkStep::SignalUsedQueue { then } => {
                actions.push("signal");
                then.signaled()
            }
            WorkStep::RetireSignaled { then } => {
                actions.push("retire");
                then.retired()
            }
        };
    }
}

#[test]
fn the_loop_starts_with_a_poll() {
    assert_eq!(Worker::new(CONTROL, None).work(), WorkStep::Poll);
}

#[test]
fn only_the_control_event_is_polled_without_a_renderer() {
    let request = Worker::new(CONTROL, None).poll_request(false);
    assert_eq!(request.nfds, 1);
    assert_eq!(request.control, PollFd { fd: CONTROL, events: libc::POLLIN });
    assert_eq!(request.virgl, PollFd { fd: -1, events: 0 });
}

#[test]
fn both_descriptors_are_polled_with_a_renderer() {
    let request = Worker::new(CONTROL, Some(VIRGL)).poll_request(false);
    assert_eq!(request.nfds, 2);
    assert_eq!(request.control, PollFd { fd: CONTROL, events: libc::POLLIN });
    assert_eq!(request.virgl, PollFd { fd: VIRGL, events: libc::POLLIN });
}

#[test]
fn a_pending_fence_shortens_the_wait() {
    let worker = Worker::new(CONTROL, Some(VIRGL));
    assert_eq!(worker.poll_request(true).timeout, 10);
    assert_eq!(worker.poll_request(false).timeout, -1);
}

#[test]
fn a_failed_poll_is_repeated() {
    let worker = Worker::new(CONTROL, Some(VIRGL));
    assert!(turn(&worker, -1, (libc::POLLIN, libc::POLLIN), true, true).is_empty());
}

#[test]
fn a_timeout_retires_fences() {
    let worker = Worker::new(CONTROL, Some(VIRGL));
    assert_eq!(turn(&worker, 0, (0, 0), true, true), ["retire"]);
    assert_eq!(turn(&Worker::new(CONTROL, None), 0, (0, 0), true, true), ["retire"]);
}

#[test]
fn the_control_event_drains_the_queue() {
    let worker = Worker::new(CONTROL, Some(VIRGL));
    for bit in [libc::POLLIN, libc::POLLHUP, libc::POLLERR] {
        assert_eq!(turn(&worker, 1, (bit, 0), true, true), ["read", "process", "signal"]);
    }
    assert!(turn(&worker, 1, (libc::POLLOUT, 0), true, true).is_empty());
}

#[test]
fn the_guest_is_interrupted_only_when_chains_were_given_back() {
    let worker = Worker::new(CONTROL, Some(VIRGL));
    assert_eq!(turn(&worker, 1, (libc::POLLIN, 0), true, false), ["read", "process"]);
}

#[test]
fn a_control_event_that_cannot_be_read_ends_the_turn() {
    let worker = Worker::new(CONTROL, Some(VIRGL));
    assert_eq!(turn(&worker, 2, (libc::POLLIN, libc::POLLIN), false, true), ["read"]);
}

#[test]
fn the_renderer_comes_last() {
    let worker = Worker::new(CONTROL, Some(VIRGL));
    assert_eq!(
        turn(&worker, 2, (libc::POLLIN, libc::POLLIN), true, true),
        ["read", "process", "signal", "retire"]
    );
    assert_eq!(
        turn(&worker, 2, (libc::POLLIN, libc::POLLHUP), true, false),
        ["read", "process", "retire"]
    );
    assert_eq!(turn(&worker, 1, (0, libc::POLLERR), true, true), ["retire"]);
}

#[test]
fn events_of_an_unpolled_entry_are_ignored() {
    let worker = Worker::new(CONTROL, None);
    assert!(turn(&worker, 1, (0, libc::POLLIN), true, true).is_empty());
    assert_eq!(
        turn(&worker, 1, (libc::POLLIN, libc::POLLIN), true, true),
        ["read", "process", "signal"]
    );
}
