//! The loop of the worker thread.
//!
//! The worker waits for the guest's control event and, where the renderer has one, for the
//! descriptor on which it tells of fences that can retire. After each `poll(2)` it takes a fixed
//! sequence of actions. Every action is a [`WorkStep`] with a continuation, as in
//! [`crate::queue`].

use crate::host::{lemma_ready_bits, PollBits};
use vstd::prelude::*;

verus! {

/// How long one `poll(2)` waits, in milliseconds, while a fence is outstanding.
pub const PENDING_FENCE_TIMEOUT: i32 = 10;

/// The timeout of a `poll(2)` that waits without end.
pub const NO_TIMEOUT: i32 = -1;

/// The descriptor number that `poll(2)` passes over.
pub const NO_DESCRIPTOR: i32 = -1;

/// One entry of the set that is polled.
#[derive(Clone, Copy, Debug, PartialEq, Eq, Structural)]
pub struct PollFd {
    pub fd: i32,
    pub events: i16,
}

/// What is handed to `poll(2)`: the first `nfds` of the entries, and the timeout.
#[derive(Clone, Copy, Debug, PartialEq, Eq, Structural)]
pub struct PollRequest {
    pub control: PollFd,
    pub virgl: PollFd,
    pub nfds: u64,
    pub timeout: i32,
}

/// What the worker polls: the control event, and the renderer's descriptor where there is one.
#[derive(Clone, Copy, Debug)]
pub struct Worker {
    control_fd: i32,
    virgl_fd: Option<i32>,
    bits: PollBits,
}

/// Which of the two descriptors ask for attention.
#[derive(Clone, Copy, Debug, PartialEq, Eq, Structural)]
pub struct Ready {
    pub control: bool,
    pub virgl: bool,
}

/// The next action of the worker.
#[derive(Clone, Copy, Debug, PartialEq, Eq, Structural)]
#[allow(inconsistent_fields)]
pub enum WorkStep {
    /// Wait for something to do.
    Poll,
    /// Let the device retire the fences that completed while the poll timed out.
    RetireAfterTimeout { then: AfterTimeout },
    /// Read the control event, which takes it back.
    ReadControlEvent { then: AfterRead },
    /// Drain the control queue.
    ProcessQueue { then: AfterQueue },
    /// Interrupt the guest: chains were given back.
    SignalUsedQueue { then: AfterSignal },
    /// Let the device retire the fences that the renderer told of.
    RetireSignaled { then: AfterRetire },
}

#[derive(Clone, Copy, Debug, PartialEq, Eq, Structural)]
pub struct AfterTimeout {
    pub ready: Ready,
}

#[derive(Clone, Copy, Debug, PartialEq, Eq, Structural)]
pub struct AfterRead {
    pub virgl_ready: bool,
}

#[derive(Clone, Copy, Debug, PartialEq, Eq, Structural)]
pub struct AfterQueue {
    pub virgl_ready: bool,
}

#[derive(Clone, Copy, Debug, PartialEq, Eq, Structural)]
pub struct AfterSignal {
    pub virgl_ready: bool,
}

#[derive(Clone, Copy, Debug, PartialEq, Eq, Structural)]
pub struct AfterRetire {

}

/// The step that sees to the renderer's descriptor, and the next poll where it is quiet.
pub open spec fn see_to_virgl(virgl_ready: bool) -> WorkStep {
    if virgl_ready {
        WorkStep::RetireSignaled { then: AfterRetire {  } }
    } else {
        WorkStep::Poll
    }
}

/// The step that sees to the control event first.
pub open spec fn see_to_control(ready: Ready) -> WorkStep {
    if ready.control {
        WorkStep::ReadControlEvent { then: AfterRead { virgl_ready: ready.virgl } }
    } else {
        see_to_virgl(ready.virgl)
    }
}

fn virgl_step(virgl_ready: bool) -> (r: WorkStep)
    ensures
        r == see_to_virgl(virgl_ready),
{
    if virgl_ready {
        WorkStep::RetireSignaled { then: AfterRetire {  } }
    } else {
        WorkStep::Poll
    }
}

fn control_step(ready: Ready) -> (r: WorkStep)
    ensures
        r == see_to_control(ready),
{
    if ready.control {
        WorkStep::ReadControlEvent { then: AfterRead { virgl_ready: ready.virgl } }
    } else {
        virgl_step(ready.virgl)
    }
}

impl Worker {
    /// The descriptor of the control event.
    pub closed spec fn control_fd(self) -> i32 {
        self.control_fd
    }

    /// The renderer's descriptor.
    pub closed spec fn virgl_fd(self) -> Option<i32> {
        self.virgl_fd
    }

    /// The event bits of `poll(2)`.
    pub closed spec fn bits(self) -> PollBits {
        self.bits
    }

    /// A worker for the two descriptors, with the host's event bits.
    pub fn new(control_fd: i32, virgl_fd: Option<i32>) -> (r: Worker)
        ensures
            r.control_fd() == control_fd,
            r.virgl_fd() == virgl_fd,
            r.bits().input() != 0,
            r.bits().hang_up() != 0,
            r.bits().error() != 0,
            r.bits().from_host(),
    {
        Worker { control_fd, virgl_fd, bits: PollBits::host() }
    }

    /// What the worker hands to `poll(2)`. While a fence is outstanding it waits for a short time
    /// only, so that fences retire although nothing tells of them; with no fence there is
    /// nothing to retire, and it waits without end.
    pub open spec fn request(self, pending_fence: bool) -> PollRequest {
        PollRequest {
            control: PollFd { fd: self.control_fd(), events: self.bits().input() },
            virgl: match self.virgl_fd() {
                Some(fd) => PollFd { fd, events: self.bits().input() },
                None => PollFd { fd: NO_DESCRIPTOR, events: 0 },
            },
            nfds: if self.virgl_fd() is Some {
                2
            } else {
                1
            },
            timeout: if pending_fence {
                PENDING_FENCE_TIMEOUT
            } else {
                NO_TIMEOUT
            },
        }
    }

    /// Gives what is to be handed to `poll(2)`.
    pub fn poll_request(&self, pending_fence: bool) -> (r: PollRequest)
        ensures
            r == self.request(pending_fence),
    {
        let input: i16 = self.bits.get_input();
        let timeout: i32 = if pending_fence {
            PENDING_FENCE_TIMEOUT
        } else {
            NO_TIMEOUT
        };
        let control = PollFd { fd: self.control_fd, events: input };
        match self.virgl_fd {
            Some(fd) => PollRequest {
                control,
                virgl: PollFd { fd, events: input },
                nfds: 2,
                timeout,
            },
            None => PollRequest {
                control,
                virgl: PollFd { fd: NO_DESCRIPTOR, events: 0 },
                nfds: 1,
                timeout,
            },
        }
    }

    /// Starts the loop.
    pub fn work(&self) -> (r: WorkStep)
        ensures
            r == WorkStep::Poll,
    {
        WorkStep::Poll
    }

    /// Which descriptors ask for attention, by the events that `poll(2)` returned for them. The
    /// second one counts only where it was polled.
    pub open spec fn ready(self, control: i16, virgl: i16) -> Ready {
        Ready {
            control: self.bits().is_ready(control),
            virgl: self.virgl_fd() is Some && self.bits().is_ready(virgl),
        }
    }

    /// What follows a poll that returned `ret`, with these events: nothing where it failed;
    /// otherwise completed fences retire if it timed out, and then the descriptors have their
    /// turn, the control event first.
    pub open spec fn after_poll(self, ret: i32, control: i16, virgl: i16) -> WorkStep {
        if ret < 0 {
            WorkStep::Poll
        } else if ret == 0 {
            WorkStep::RetireAfterTimeout {
                then: AfterTimeout { ready: self.ready(control, virgl) },
            }
        } else {
            see_to_control(self.ready(control, virgl))
        }
    }

    /// Goes on with what `poll(2)` returned: its result, and the events of the two entries.
    pub fn polled(&self, ret: i32, control: i16, virgl: i16) -> (r: WorkStep)
        ensures
            r == self.after_poll(ret, control, virgl),
    {
        if ret < 0 {
            return WorkStep::Poll;
        }
        let virgl_polled: bool = self.virgl_fd.is_some();
        let ready = Ready {
            control: self.bits.ready(control),
            virgl: virgl_polled && self.bits.ready(virgl),
        };
        if ret == 0 {
            WorkStep::RetireAfterTimeout { then: AfterTimeout { ready } }
        } else {
            control_step(ready)
        }
    }
}

impl AfterTimeout {
    /// What follows the retiring of fences after a timeout.
    pub open spec fn next(self) -> WorkStep {
        see_to_control(self.ready)
    }

    /// Goes on with the descriptors.
    pub fn retired(self) -> (r: WorkStep)
        ensures
            r == self.next(),
    {
        control_step(self.ready)
    }
}

impl AfterRead {
    /// What follows the reading of the control event. Where it fails, the worker polls again.
    pub open spec fn next(self, read: bool) -> WorkStep {
        if read {
            WorkStep::ProcessQueue { then: AfterQueue { virgl_ready: self.virgl_ready } }
        } else {
            WorkStep::Poll
        }
    }

    /// Goes on once the control event was read, or could not be.
    pub fn control_read(self, read: bool) -> (r: WorkStep)
        ensures
            r == self.next(read),
    {
        if read {
            WorkStep::ProcessQueue { then: AfterQueue { virgl_ready: self.virgl_ready } }
        } else {
            WorkStep::Poll
        }
    }
}

impl AfterQueue {
    /// What follows the draining of the queue: the guest is interrupted where chains were given
    /// back.
    pub open spec fn next(self, used_any: bool) -> WorkStep {
        if used_any {
            WorkStep::SignalUsedQueue { then: AfterSignal { virgl_ready: self.virgl_ready } }
        } else {
            see_to_virgl(self.virgl_ready)
        }
    }

    /// Goes on with what the draining of the queue told.
    pub fn processed(self, used_any: bool) -> (r: WorkStep)
        ensures
            r == self.next(used_any),
    {
        if used_any {
            WorkStep::SignalUsedQueue { then: AfterSignal { virgl_ready: self.virgl_ready } }
        } else {
            virgl_step(self.virgl_ready)
        }
    }
}

impl AfterSignal {
    /// What follows the interrupt.
    pub open spec fn next(self) -> WorkStep {
        see_to_virgl(self.virgl_ready)
    }

    /// Goes on with the renderer's descriptor, whether or not the interrupt got through.
    pub fn signaled(self) -> (r: WorkStep)
        ensures
            r == self.next(),
    {
        virgl_step(self.virgl_ready)
    }
}

impl AfterRetire {
    /// What follows the retiring of the fences that the renderer told of.
    pub open spec fn next(self) -> WorkStep {
        WorkStep::Poll
    }

    /// Goes on with the next poll.
    pub fn retired(self) -> (r: WorkStep)
        ensures
            r == self.next(),
    {
        WorkStep::Poll
    }
}

/// What the outside answers during one turn of the loop.
pub struct Turn {
    /// What `poll(2)` returned.
    pub ret: i32,
    /// The events of the control entry.
    pub control: i16,
    /// The events of the renderer's entry.
    pub virgl: i16,
    /// Whether the control event could be read.
    pub read: bool,
    /// Whether the draining of the queue gave chains back.
    pub used_any: bool,
}

/// An action of the worker, without what follows it.
pub enum WorkAction {
    RetireFences,
    ReadControlEvent,
    ProcessQueue,
    SignalUsedQueue,
}

/// The step that follows `step` in a turn.
pub open spec fn next_step(worker: Worker, turn: Turn, step: WorkStep) -> WorkStep {
    match step {
        WorkStep::Poll => worker.after_poll(turn.ret, turn.control, turn.virgl),
        WorkStep::RetireAfterTimeout { then } => then.next(),
        WorkStep::ReadControlEvent { then } => then.next(turn.read),
        WorkStep::ProcessQueue { then } => then.next(turn.used_any),
        WorkStep::SignalUsedQueue { then } => then.next(),
        WorkStep::RetireSignaled { then } => then.next(),
    }
}

/// How many actions a turn can still take from a step on.
pub open spec fn actions_left(step: WorkStep) -> nat {
    match step {
        WorkStep::Poll => 0,
        WorkStep::RetireSignaled { .. } => 1,
        WorkStep::SignalUsedQueue { .. } => 2,
        WorkStep::ProcessQueue { .. } => 3,
        WorkStep::ReadControlEvent { .. } => 4,
        WorkStep::RetireAfterTimeout { .. } => 5,
    }
}

/// The action of a step.
pub open spec fn action_of(step: WorkStep) -> Option<WorkAction> {
    match step {
        WorkStep::Poll => None,
        WorkStep::RetireAfterTimeout { .. } => Some(WorkAction::RetireFences),
        WorkStep::ReadControlEvent { .. } => Some(WorkAction::ReadControlEvent),
        WorkStep::ProcessQueue { .. } => Some(WorkAction::ProcessQueue),
        WorkStep::SignalUsedQueue { .. } => Some(WorkAction::SignalUsedQueue),
        WorkStep::RetireSignaled { .. } => Some(WorkAction::RetireFences),
    }
}

/// The actions from `step` on until the next poll.
pub open spec fn actions_from(worker: Worker, turn: Turn, step: WorkStep) -> Seq<WorkAction>
    decreases actions_left(step),
{
    match action_of(step) {
        None => Seq::empty(),
        Some(action) => seq![action] + actions_from(worker, turn, next_step(worker, turn, step)),
    }
}

/// The actions of the turn that a poll starts.
pub open spec fn turn_actions(worker: Worker, turn: Turn) -> Seq<WorkAction> {
    actions_from(worker, turn, next_step(worker, turn, WorkStep::Poll))
}

/// `actions` where `condition` holds, and none otherwise.
pub open spec fn only_if(condition: bool, actions: Seq<WorkAction>) -> Seq<WorkAction> {
    if condition {
        actions
    } else {
        Seq::empty()
    }
}

/// Whether events ask for attention, by the bits of `poll(2)`: data to read, a peer that hung
/// up, or an error.
pub open spec fn has_event(worker: Worker, revents: i16) -> bool {
    ||| revents & worker.bits().input() != 0
    ||| revents & worker.bits().hang_up() != 0
    ||| revents & worker.bits().error() != 0
}

/// What a turn does, in order. A poll that failed is followed by nothing. Otherwise completed
/// fences retire if the poll timed out. Then, if the control event asks for attention, it is
/// read; where that fails the turn is over, and else the queue is drained and the guest
/// interrupted if chains were given back. At last fences retire if the renderer has a descriptor
/// and told of any there, whatever the control event says.
pub proof fn law_turn(worker: Worker, turn: Turn)
    ensures
        ({
            let control = has_event(worker, turn.control);
            let virgl = worker.virgl_fd() is Some && has_event(worker, turn.virgl);
            let on_time = only_if(turn.ret == 0, seq![WorkAction::RetireFences]);
            let served = only_if(
                control,
                seq![WorkAction::ReadControlEvent] + only_if(
                    turn.read,
                    seq![WorkAction::ProcessQueue] + only_if(
                        turn.used_any,
                        seq![WorkAction::SignalUsedQueue],
                    ),
                ),
            );
            let at_last = only_if(virgl && (control ==> turn.read), seq![WorkAction::RetireFences]);
            turn_actions(worker, turn) == only_if(turn.ret >= 0, on_time + served + at_last)
        }),
{
    lemma_ready_bits(worker.bits(), turn.control);
    lemma_ready_bits(worker.bits(), turn.virgl);
    reveal_with_fuel(actions_from, 7);
    let control = has_event(worker, turn.control);
    let virgl = worker.virgl_fd() is Some && has_event(worker, turn.virgl);
    let on_time = only_if(turn.ret == 0, seq![WorkAction::RetireFences]);
    let served = only_if(
        control,
        seq![WorkAction::ReadControlEvent] + only_if(
            turn.read,
            seq![WorkAction::ProcessQueue] + only_if(
                turn.used_any,
                seq![WorkAction::SignalUsedQueue],
            ),
        ),
    );
    let at_last = only_if(virgl && (control ==> turn.read), seq![WorkAction::RetireFences]);
    assert(turn_actions(worker, turn) =~= only_if(turn.ret >= 0, on_time + served + at_last));
}

/// Every turn ends: whatever the outside answers, each action brings the next poll nearer, which
/// comes after at most five.
pub proof fn law_turns_end(worker: Worker, turn: Turn, step: WorkStep)
    ensures
        step != WorkStep::Poll ==> actions_left(next_step(worker, turn, step)) < actions_left(step),
        actions_left(step) <= 5,
        actions_left(step) == 0 <==> step == WorkStep::Poll,
{
}

/// The guest is interrupted exactly in a turn that drained the queue and gave chains back.
pub proof fn law_interrupt_follows_chains_given_back(worker: Worker, turn: Turn)
    ensures
        turn_actions(worker, turn).contains(WorkAction::SignalUsedQueue) <==> (turn_actions(
            worker,
            turn,
        ).contains(WorkAction::ProcessQueue) && turn.used_any),
{
    law_turn(worker, turn);
    let actions = turn_actions(worker, turn);
    let at: int = if turn.ret == 0 {
        1
    } else {
        0
    };
    if turn.ret >= 0 && has_event(worker, turn.control) && turn.read {
        assert(actions[at + 1] == WorkAction::ProcessQueue);
        if turn.used_any {
            assert(actions[at + 2] == WorkAction::SignalUsedQueue);
        }
    }
}

/// A worker without a renderer's descriptor never acts on the events of the second entry.
pub proof fn law_unpolled_entry_is_ignored(worker: Worker, ret: i32, control: i16, a: i16, b: i16)
    requires
        worker.virgl_fd() is None,
    ensures
        worker.after_poll(ret, control, a) == worker.after_poll(ret, control, b),
        forall|pending: bool| #[trigger] worker.request(pending).nfds == 1,
{
}

/// An idle worker sleeps: a poll that can time out is made only while a fence is outstanding,
/// and then it waits no longer than its short timeout.
pub proof fn law_only_pending_fences_wake_an_idle_worker(worker: Worker, pending_fence: bool)
    ensures
        worker.request(pending_fence).timeout >= 0 <==> pending_fence,
        pending_fence ==> worker.request(pending_fence).timeout == PENDING_FENCE_TIMEOUT,
{
}

/// A turn retires fences exactly if its poll timed out, or the renderer told of some on its
/// descriptor, by any of the three bits, and the control event, if it asked for attention, could
/// be read.
pub proof fn law_fences_retire(worker: Worker, turn: Turn)
    ensures
        turn_actions(worker, turn).contains(WorkAction::RetireFences) <==> (turn.ret == 0
            || turn.ret > 0 && worker.virgl_fd() is Some && has_event(worker, turn.virgl) && (
        has_event(worker, turn.control) ==> turn.read)),
{
    law_turn(worker, turn);
    let actions = turn_actions(worker, turn);
    if turn.ret == 0 {
        assert(actions[0] == WorkAction::RetireFences);
    } else if turn.ret > 0 && worker.virgl_fd() is Some && has_event(worker, turn.virgl) && (
    has_event(worker, turn.control) ==> turn.read) {
        assert(actions.last() == WorkAction::RetireFences);
    }
}

/// The renderer's word alone retires fences: where the control event is quiet and the poll
/// returned something, the turn of a worker that polls the renderer's descriptor retires fences
/// exactly if the events of that descriptor hold one of the three bits.
pub proof fn law_renderer_alone_retires_fences(
    control_fd: i32,
    virgl_fd: i32,
    worker: Worker,
    turn: Turn,
)
    requires
        call_ensures(Worker::new, (control_fd, Some(virgl_fd)), worker),
        turn.ret > 0,
        turn.control & worker.bits().input() == 0,
        turn.control & worker.bits().hang_up() == 0,
        turn.control & worker.bits().error() == 0,
    ensures
        turn_actions(worker, turn).contains(WorkAction::RetireFences) <==> turn.virgl & (
        worker.bits().input() | worker.bits().hang_up() | worker.bits().error()) != 0,
{
    law_fences_retire(worker, turn);
    let revents = turn.virgl;
    let a = worker.bits().input();
    let b = worker.bits().hang_up();
    let c = worker.bits().error();
    assert(revents & (a | b | c) != 0 <==> (revents & a != 0 || revents & b != 0 || revents & c
        != 0)) by (bit_vector);
}

/// What follows a poll, for a worker that was made for these descriptors: nothing where it
/// failed; a poll that timed out retires fences and remembers what the descriptors say; else the
/// control event comes first and the renderer's descriptor, where there is one, comes after it.
pub proof fn law_polled(
    control_fd: i32,
    virgl_fd: Option<i32>,
    worker: Worker,
    ret: i32,
    control: i16,
    virgl: i16,
    r: WorkStep,
)
    requires
        call_ensures(Worker::new, (control_fd, virgl_fd), worker),
        call_ensures(Worker::polled, (&worker, ret, control, virgl), r),
    ensures
        ({
            let control_asks = has_event(worker, control);
            let virgl_asks = virgl_fd is Some && has_event(worker, virgl);
            &&& ret < 0 ==> r is Poll
            &&& ret == 0 ==> {
                &&& r matches WorkStep::RetireAfterTimeout { then }
                &&& then.ready.control == control_asks
                &&& then.ready.virgl == virgl_asks
            }
            &&& ret > 0 && control_asks ==> {
                &&& r matches WorkStep::ReadControlEvent { then }
                &&& then.virgl_ready == virgl_asks
            }
            &&& ret > 0 && !control_asks && virgl_asks ==> r is RetireSignaled
            &&& ret > 0 && !control_asks && !virgl_asks ==> r is Poll
        }),
{
    lemma_ready_bits(worker.bits(), control);
    lemma_ready_bits(worker.bits(), virgl);
}

/// What the worker asks for, it attends to: events with the bit that it polls for make it read
/// the control event, whatever else they hold.
pub proof fn law_polled_events_are_attended_to(
    control_fd: i32,
    virgl_fd: Option<i32>,
    worker: Worker,
    pending_fence: bool,
    request: PollRequest,
    ret: i32,
    virgl: i16,
    r: WorkStep,
)
    requires
        call_ensures(Worker::new, (control_fd, virgl_fd), worker),
        call_ensures(Worker::poll_request, (&worker, pending_fence), request),
        call_ensures(Worker::polled, (&worker, ret, request.control.events, virgl), r),
        ret > 0,
    ensures
        r is ReadControlEvent,
{
    law_polled(control_fd, virgl_fd, worker, ret, request.control.events, virgl, r);
    let events = request.control.events;
    assert(events & events == events) by (bit_vector);
}

/// The worker polls the descriptors that it was made for, both for data to read: the control
/// event always, and the renderer's where there is one. While a fence is outstanding it waits for
/// ten milliseconds, and without end otherwise.
pub proof fn law_worker_polls_its_descriptors(
    control_fd: i32,
    virgl_fd: Option<i32>,
    worker: Worker,
    pending_fence: bool,
    r: PollRequest,
)
    requires
        call_ensures(Worker::new, (control_fd, virgl_fd), worker),
        call_ensures(Worker::poll_request, (&worker, pending_fence), r),
    ensures
        r.control.fd == control_fd,
        r.control.events == worker.bits().input(),
        virgl_fd matches Some(fd) ==> r.virgl.fd == fd && r.virgl.events == worker.bits().input()
            && r.nfds == 2,
        virgl_fd is None ==> r.virgl.fd == -1 && r.virgl.events == 0 && r.nfds == 1,
        pending_fence ==> r.timeout == 10,
        !pending_fence ==> r.timeout == -1,
{
}

/// The loop starts with a poll, whatever the worker.
pub proof fn law_loop_starts_with_a_poll(worker: Worker, r: WorkStep)
    requires
        call_ensures(Worker::work, (&worker,), r),
    ensures
        r is Poll,
{
}

/// After a timeout the descriptors have their turn, the control event first.
pub proof fn law_after_a_timeout(then: AfterTimeout, r: WorkStep)
    requires
        call_ensures(AfterTimeout::retired, (then,), r),
    ensures
        then.ready.control ==> (r matches WorkStep::ReadControlEvent { then: next }
            && next.virgl_ready == then.ready.virgl),
        !then.ready.control && then.ready.virgl ==> r is RetireSignaled,
        !then.ready.control && !then.ready.virgl ==> r is Poll,
{
}

/// The queue is drained exactly if the control event could be read.
pub proof fn law_after_the_control_event(then: AfterRead, read: bool, r: WorkStep)
    requires
        call_ensures(AfterRead::control_read, (then, read), r),
    ensures
        read ==> (r matches WorkStep::ProcessQueue { then: next } && next.virgl_ready
            == then.virgl_ready),
        !read ==> r is Poll,
{
}

/// The guest is interrupted exactly if chains were given back; where none was, the renderer has
/// its turn at once.
pub proof fn law_after_the_queue(then: AfterQueue, used_any: bool, r: WorkStep)
    requires
        call_ensures(AfterQueue::processed, (then, used_any), r),
    ensures
        used_any ==> (r matches WorkStep::SignalUsedQueue { then: next } && next.virgl_ready
            == then.virgl_ready),
        !used_any && then.virgl_ready ==> r is RetireSignaled,
        !used_any && !then.virgl_ready ==> r is Poll,
{
}

/// After the interrupt the renderer has its turn, and after that the next poll comes.
pub proof fn law_after_the_interrupt(
    then: AfterSignal,
    r: WorkStep,
    last: AfterRetire,
    end: WorkStep,
)
    requires
        call_ensures(AfterSignal::signaled, (then,), r),
        call_ensures(AfterRetire::retired, (last,), end),
    ensures
        then.virgl_ready ==> r is RetireSignaled,
        !then.virgl_ready ==> r is Poll,
        end is Poll,
{
}

} // verus!
