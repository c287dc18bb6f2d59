//! Decisions of the background byte pump and the health snapshot of a channel.
use vstd::prelude::*;
use crate::framing::{feed_step, check_timeout_step, lossy_utf8, FrameView, FramingBuffer};
use crate::slot::SessionSlot;

verus! {

/// Result of one bounded read of a single byte.
#[derive(Clone, Copy, Debug, PartialEq, Eq, Structural)]
pub enum ReadOutcome {
    /// A byte arrived.
    Byte(u8),
    /// The wait ended with no data.
    TimedOut,
    /// A hard I/O error.
    Failed,
}

/// What the pump does after a read.
#[derive(Debug)]
pub enum ReaderAction {
    /// Read again.
    Continue,
    /// Deliver a completed message, then read again.
    Emit(String),
    /// Yield the scheduler, then read again.
    Yield,
    /// End the session.
    Stop,
}

/// Adds one to a counter that stops at its largest value.
pub open spec fn bump(n: u64) -> u64 {
    if n < u64::MAX {
        (n + 1) as u64
    } else {
        n
    }
}

/// Abstract state of the pump.
pub struct ReaderView {
    pub frame: FrameView,
    pub read_count: u64,
    pub error_count: u64,
    pub stopped: bool,
}

/// The per-session state of the framed reader: framing plus read and error counters.
pub struct FramedReader {
    framing: FramingBuffer,
    read_count: u64,
    error_count: u64,
    stopped: bool,
}

impl View for FramedReader {
    type V = ReaderView;

    closed spec fn view(&self) -> ReaderView {
        ReaderView {
            frame: self.framing@,
            read_count: self.read_count,
            error_count: self.error_count,
            stopped: self.stopped,
        }
    }
}

impl FramedReader {
    pub closed spec fn wf(&self) -> bool {
        self.framing.wf()
    }

    /// A fresh session: nothing read, no error, no frame open.
    pub fn new() -> (r: FramedReader)
        ensures
            r.wf(),
            r@.read_count == 0,
            r@.error_count == 0,
            !r@.stopped,
            !r@.frame.collecting,
            r@.frame.bytes.len() == 0,
    {
        FramedReader { framing: FramingBuffer::new(), read_count: 0, error_count: 0, stopped: false }
    }

    pub fn read_count(&self) -> (r: u64)
        ensures
            r == self@.read_count,
    {
        self.read_count
    }

    pub fn error_count(&self) -> (r: u64)
        ensures
            r == self@.error_count,
    {
        self.error_count
    }

    /// Whether a hard error has ended the session.
    pub fn is_stopped(&self) -> (r: bool)
        ensures
            r == self@.stopped,
    {
        self.stopped
    }

    /// Start of an iteration: drops a frame whose ETX is overdue at `now_ms`.
    pub fn tick(&mut self, now_ms: u64)
        requires
            old(self).wf(),
        ensures
            final(self).wf(),
            final(self)@ == (ReaderView {
                frame: check_timeout_step(old(self)@.frame, now_ms),
                ..old(self)@
            }),
    {
        self.framing.check_timeout(now_ms);
    }

    /// Takes the outcome of one read at `now_ms` and says what to do next.
    /// A byte is counted and framed; a timeout yields; a hard error is counted
    /// and ends the session. Once ended, nothing changes and the answer is `Stop`.
    pub fn on_read(&mut self, outcome: ReadOutcome, now_ms: u64) -> (r: ReaderAction)
        requires
            old(self).wf(),
        ensures
            final(self).wf(),
            old(self)@.stopped ==> final(self)@ == old(self)@ && r is Stop,
            !old(self)@.stopped ==> match outcome {
                ReadOutcome::Byte(b) => {
                    &&& final(self)@ == (ReaderView {
                        frame: feed_step(old(self)@.frame, b, now_ms).0,
                        read_count: bump(old(self)@.read_count),
                        ..old(self)@
                    })
                    &&& match feed_step(old(self)@.frame, b, now_ms).1 {
                        Some(p) => r is Emit && r->Emit_0@ == lossy_utf8(p),
                        None => r is Continue,
                    }
                },
                ReadOutcome::TimedOut => final(self)@ == old(self)@ && r is Yield,
                ReadOutcome::Failed => {
                    &&& final(self)@ == (ReaderView {
                        error_count: bump(old(self)@.error_count),
                        stopped: true,
                        ..old(self)@
                    })
                    &&& r is Stop
                },
            },
    {
        if self.stopped {
            return ReaderAction::Stop;
        }
        match outcome {
            ReadOutcome::Byte(b) => {
                if self.read_count < u64::MAX {
                    self.read_count = self.read_count + 1;
                }
                match self.framing.feed(b, now_ms) {
                    Some(text) => ReaderAction::Emit(text),
                    None => ReaderAction::Continue,
                }
            },
            ReadOutcome::TimedOut => ReaderAction::Yield,
            ReadOutcome::Failed => {
                if self.error_count < u64::MAX {
                    self.error_count = self.error_count + 1;
                }
                self.stopped = true;
                ReaderAction::Stop
            },
        }
    }
}

/// Health snapshot of the framed-reading channel.
#[derive(Clone, Copy, Debug, PartialEq, Eq, Structural)]
pub struct SerialHealthInfo {
    pub uptime_seconds: u64,
    pub read_count: u64,
    pub error_count: u64,
    pub is_connected: bool,
}

/// Whole seconds from `since_ms` to `now_ms`; zero when the clock reads earlier.
pub open spec fn elapsed_seconds(since_ms: u64, now_ms: u64) -> u64 {
    if now_ms >= since_ms {
        ((now_ms - since_ms) / 1000) as u64
    } else {
        0
    }
}

/// Snapshot of a slot at `now_ms`, with the counters its worker has published.
pub fn serial_health(slot: &SessionSlot, now_ms: u64, read_count: u64, error_count: u64) -> (r:
    SerialHealthInfo)
    ensures
        r.uptime_seconds == elapsed_seconds(slot@.opened_at_ms, now_ms),
        r.read_count == read_count,
        r.error_count == error_count,
        r.is_connected == slot@.handle_open,
{
    let since = slot.opened_at_ms();
    let uptime = if now_ms >= since {
        (now_ms - since) / 1000
    } else {
        0
    };
    SerialHealthInfo {
        uptime_seconds: uptime,
        read_count,
        error_count,
        is_connected: slot.is_connected(),
    }
}

} // verus!
