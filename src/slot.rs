//! Lifecycle of a shared session slot: at most one open device handle and one
//! worker, with a replaced session fully stopped before the next one opens.
use vstd::prelude::*;

verus! {

/// What the slot is working towards.
#[derive(Clone, Copy, Debug, PartialEq, Eq, Structural)]
pub enum SlotTarget {
    /// Nothing to do.
    Steady,
    /// Tear the session down.
    Stop,
    /// Tear the session down, then open a new one.
    Restart,
    /// A new handle is open; its worker is still to be started.
    Launch,
}

/// The next thing the owner of the slot has to do.
#[derive(Clone, Copy, Debug, PartialEq, Eq, Structural)]
pub enum SlotAction {
    /// Nothing; the slot is settled.
    Idle,
    /// Raise the worker's cancellation flag.
    Cancel,
    /// Wait for the worker to finish.
    Join,
    /// Drop the device handle.
    Release,
    /// Open the device.
    Open,
    /// Start a worker on the open handle.
    Spawn,
}

/// What the owner reports to the slot.
#[derive(Clone, Copy, Debug, PartialEq, Eq, Structural)]
pub enum SlotEvent {
    StartRequested,
    StopRequested,
    CancelSent,
    WorkerJoined,
    HandleReleased,
    /// The device opened, at the given time in milliseconds.
    Opened(u64),
    OpenFailed,
    WorkerSpawned,
}

/// Abstract state of a slot.
pub struct SlotView {
    pub handle_open: bool,
    pub worker_running: bool,
    pub cancel_sent: bool,
    pub target: SlotTarget,
    pub opened_at_ms: u64,
}

/// A worker always has its handle; cancellation is only pending on a live worker;
/// a settled slot is either fully open or fully closed.
pub open spec fn slot_wf(v: SlotView) -> bool {
    &&& v.worker_running ==> v.handle_open
    &&& v.cancel_sent ==> v.worker_running
    &&& v.target == SlotTarget::Steady ==> (v.handle_open == v.worker_running && !v.cancel_sent)
    &&& v.target == SlotTarget::Stop ==> v.handle_open
    &&& v.target == SlotTarget::Launch ==> (v.handle_open && !v.worker_running && !v.cancel_sent)
}

pub open spec fn next_action(v: SlotView) -> SlotAction {
    match v.target {
        SlotTarget::Steady => SlotAction::Idle,
        SlotTarget::Launch => SlotAction::Spawn,
        _ => {
            if v.worker_running && !v.cancel_sent {
                SlotAction::Cancel
            } else if v.worker_running {
                SlotAction::Join
            } else if v.handle_open {
                SlotAction::Release
            } else if v.target == SlotTarget::Restart {
                SlotAction::Open
            } else {
                SlotAction::Idle
            }
        },
    }
}

/// Effect of an event. A report that does not answer the pending action changes nothing.
pub open spec fn slot_step(v: SlotView, e: SlotEvent) -> SlotView {
    match e {
        SlotEvent::StartRequested => {
            if v.target == SlotTarget::Steady {
                SlotView { target: SlotTarget::Restart, ..v }
            } else {
                v
            }
        },
        SlotEvent::StopRequested => {
            if v.target == SlotTarget::Steady && v.handle_open {
                SlotView { target: SlotTarget::Stop, ..v }
            } else {
                v
            }
        },
        SlotEvent::CancelSent => {
            if next_action(v) == SlotAction::Cancel {
                SlotView { cancel_sent: true, ..v }
            } else {
                v
            }
        },
        SlotEvent::WorkerJoined => {
            if next_action(v) == SlotAction::Join {
                SlotView { worker_running: false, cancel_sent: false, ..v }
            } else {
                v
            }
        },
        SlotEvent::HandleReleased => {
            if next_action(v) == SlotAction::Release {
                SlotView {
                    handle_open: false,
                    target: if v.target == SlotTarget::Stop {
                        SlotTarget::Steady
                    } else {
                        v.target
                    },
                    ..v
                }
            } else {
                v
            }
        },
        SlotEvent::Opened(now_ms) => {
            if next_action(v) == SlotAction::Open {
                SlotView {
                    handle_open: true,
                    target: SlotTarget::Launch,
                    opened_at_ms: now_ms,
                    ..v
                }
            } else {
                v
            }
        },
        SlotEvent::OpenFailed => {
            if next_action(v) == SlotAction::Open {
                SlotView { target: SlotTarget::Steady, ..v }
            } else {
                v
            }
        },
        SlotEvent::WorkerSpawned => {
            if next_action(v) == SlotAction::Spawn {
                SlotView { worker_running: true, target: SlotTarget::Steady, ..v }
            } else {
                v
            }
        },
    }
}

/// One slot of the registry: the bookkeeping of one device session.
pub struct SessionSlot {
    handle_open: bool,
    worker_running: bool,
    cancel_sent: bool,
    target: SlotTarget,
    opened_at_ms: u64,
}

impl View for SessionSlot {
    type V = SlotView;

    closed spec fn view(&self) -> SlotView {
        SlotView {
            handle_open: self.handle_open,
            worker_running: self.worker_running,
            cancel_sent: self.cancel_sent,
            target: self.target,
            opened_at_ms: self.opened_at_ms,
        }
    }
}

impl SessionSlot {
    pub open spec fn wf(&self) -> bool {
        slot_wf(self@)
    }

    /// An empty, settled slot created at `now_ms`.
    pub fn new(now_ms: u64) -> (r: SessionSlot)
        ensures
            r.wf(),
            !r@.handle_open,
            !r@.worker_running,
            !r@.cancel_sent,
            r@.target == SlotTarget::Steady,
            r@.opened_at_ms == now_ms,
    {
        SessionSlot {
            handle_open: false,
            worker_running: false,
            cancel_sent: false,
            target: SlotTarget::Steady,
            opened_at_ms: now_ms,
        }
    }

    /// Whether a device handle is held.
    pub fn is_connected(&self) -> (r: bool)
        ensures
            r == self@.handle_open,
    {
        self.handle_open
    }

    /// Whether a worker is running.
    pub fn has_worker(&self) -> (r: bool)
        ensures
            r == self@.worker_running,
    {
        self.worker_running
    }

    /// When the current handle was opened (or the slot created), in milliseconds.
    pub fn opened_at_ms(&self) -> (r: u64)
        ensures
            r == self@.opened_at_ms,
    {
        self.opened_at_ms
    }

    /// The next thing to do.
    pub fn next_action(&self) -> (r: SlotAction)
        ensures
            r == next_action(self@),
    {
        match self.target {
            SlotTarget::Steady => SlotAction::Idle,
            SlotTarget::Launch => SlotAction::Spawn,
            _ => {
                if self.worker_running && !self.cancel_sent {
                    SlotAction::Cancel
                } else if self.worker_running {
                    SlotAction::Join
                } else if self.handle_open {
                    SlotAction::Release
                } else if self.target == SlotTarget::Restart {
                    SlotAction::Open
                } else {
                    SlotAction::Idle
                }
            },
        }
    }

    /// Applies an event and returns the next thing to do.
    pub fn handle(&mut self, e: SlotEvent) -> (r: SlotAction)
        requires
            old(self).wf(),
        ensures
            final(self).wf(),
            final(self)@ == slot_step(old(self)@, e),
            r == next_action(final(self)@),
    {
        let pending = self.next_action();
        match e {
            SlotEvent::StartRequested => {
                if self.target == SlotTarget::Steady {
                    self.target = SlotTarget::Restart;
                }
            },
            SlotEvent::StopRequested => {
                if self.target == SlotTarget::Steady && self.handle_open {
                    self.target = SlotTarget::Stop;
                }
            },
            SlotEvent::CancelSent => {
                if pending == SlotAction::Cancel {
                    self.cancel_sent = true;
                }
            },
            SlotEvent::WorkerJoined => {
                if pending == SlotAction::Join {
                    self.worker_running = false;
                    self.cancel_sent = false;
                }
            },
            SlotEvent::HandleReleased => {
                if pending == SlotAction::Release {
                    self.handle_open = false;
                    if self.target == SlotTarget::Stop {
                        self.target = SlotTarget::Steady;
                    }
                }
            },
            SlotEvent::Opened(now_ms) => {
                if pending == SlotAction::Open {
                    self.handle_open = true;
                    self.target = SlotTarget::Launch;
                    self.opened_at_ms = now_ms;
                }
            },
            SlotEvent::OpenFailed => {
                if pending == SlotAction::Open {
                    self.target = SlotTarget::Steady;
                }
            },
            SlotEvent::WorkerSpawned => {
                if pending == SlotAction::Spawn {
                    self.worker_running = true;
                    self.target = SlotTarget::Steady;
                }
            },
        }
        self.next_action()
    }
}

/// The report that answers `a` when it succeeds.
pub open spec fn success_event(a: SlotAction, now_ms: u64) -> SlotEvent {
    match a {
        SlotAction::Cancel => SlotEvent::CancelSent,
        SlotAction::Join => SlotEvent::WorkerJoined,
        SlotAction::Release => SlotEvent::HandleReleased,
        SlotAction::Open => SlotEvent::Opened(now_ms),
        _ => SlotEvent::WorkerSpawned,
    }
}

/// Carries out up to `fuel` pending actions, each of them succeeding.
pub open spec fn run_ok(v: SlotView, fuel: nat, now_ms: u64) -> SlotView
    decreases fuel,
{
    if fuel == 0 || next_action(v) == SlotAction::Idle {
        v
    } else {
        run_ok(slot_step(v, success_event(next_action(v), now_ms)), (fuel - 1) as nat, now_ms)
    }
}

/// Every event keeps a slot well formed: never a worker without its handle.
pub proof fn lemma_step_preserves_wf(v: SlotView, e: SlotEvent)
    requires
        slot_wf(v),
    ensures
        slot_wf(slot_step(v, e)),
{
}

/// A device is only ever opened when the slot holds no handle and no worker.
pub proof fn lemma_open_only_when_closed(v: SlotView)
    requires
        slot_wf(v),
        next_action(v) == SlotAction::Open,
    ensures
        !v.handle_open,
        !v.worker_running,
        !v.cancel_sent,
{
}

/// Starting a settled slot, with every step succeeding, ends with exactly one
/// open handle and one running worker, whatever session was there before.
pub proof fn lemma_start_settles_open(v: SlotView, now_ms: u64)
    requires
        slot_wf(v),
        v.target == SlotTarget::Steady,
    ensures
        ({
            let w = run_ok(slot_step(v, SlotEvent::StartRequested), 5, now_ms);
            &&& slot_wf(w)
            &&& w.target == SlotTarget::Steady
            &&& w.handle_open
            &&& w.worker_running
            &&& !w.cancel_sent
            &&& w.opened_at_ms == now_ms
        }),
{
    let v0 = slot_step(v, SlotEvent::StartRequested);
    reveal_with_fuel(run_ok, 6);
    if v.worker_running {
        let v1 = slot_step(v0, SlotEvent::CancelSent);
        let v2 = slot_step(v1, SlotEvent::WorkerJoined);
        let v3 = slot_step(v2, SlotEvent::HandleReleased);
        let v4 = slot_step(v3, SlotEvent::Opened(now_ms));
        let v5 = slot_step(v4, SlotEvent::WorkerSpawned);
        assert(next_action(v0) == SlotAction::Cancel);
        assert(next_action(v1) == SlotAction::Join);
        assert(next_action(v2) == SlotAction::Release);
        assert(next_action(v3) == SlotAction::Open);
        assert(next_action(v4) == SlotAction::Spawn);
        assert(next_action(v5) == SlotAction::Idle);
    } else {
        let v1 = slot_step(v0, SlotEvent::Opened(now_ms));
        let v2 = slot_step(v1, SlotEvent::WorkerSpawned);
        assert(next_action(v0) == SlotAction::Open);
        assert(next_action(v1) == SlotAction::Spawn);
        assert(next_action(v2) == SlotAction::Idle);
    }
}

/// Two starts in succession without a stop leave exactly one open handle and
/// one running worker: the first session is cancelled, joined and released
/// before the second device is opened.
pub proof fn lemma_double_start(v: SlotView, first_ms: u64, second_ms: u64)
    requires
        slot_wf(v),
        v.target == SlotTarget::Steady,
    ensures
        ({
            let w1 = run_ok(slot_step(v, SlotEvent::StartRequested), 5, first_ms);
            let w2 = run_ok(slot_step(w1, SlotEvent::StartRequested), 5, second_ms);
            &&& w1.handle_open && w1.worker_running
            &&& next_action(slot_step(w1, SlotEvent::StartRequested)) == SlotAction::Cancel
            &&& slot_wf(w2)
            &&& w2.target == SlotTarget::Steady
            &&& w2.handle_open
            &&& w2.worker_running
            &&& w2.opened_at_ms == second_ms
        }),
{
    lemma_start_settles_open(v, first_ms);
    let w1 = run_ok(slot_step(v, SlotEvent::StartRequested), 5, first_ms);
    lemma_start_settles_open(w1, second_ms);
}

} // verus!
