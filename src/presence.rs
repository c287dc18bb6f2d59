//! Human-presence detection from the CTS/DSR control lines, edge-triggered.
use vstd::prelude::*;

verus! {

/// State of the two control lines.
#[derive(Clone, Copy, Debug, PartialEq, Eq, Structural)]
pub struct PinState {
    pub cts: bool,
    pub dsr: bool,
}

/// A change of the control lines, as delivered to the application.
#[derive(Clone, Copy, Debug, PartialEq, Eq, Structural)]
pub struct PresenceEvent {
    pub cts: bool,
    pub dsr: bool,
    /// A person is present when either line is raised.
    pub detected: bool,
    pub timestamp_ms: u64,
}

/// Whether a sample is reported after `last` was: only when it differs.
pub open spec fn changed(last: PinState, sample: PinState) -> bool {
    sample.cts != last.cts || sample.dsr != last.dsr
}

/// Number of events that a run of samples produces, starting after `last`.
pub open spec fn emissions(last: PinState, samples: Seq<PinState>) -> nat
    decreases samples.len(),
{
    if samples.len() == 0 {
        0
    } else if changed(last, samples[0]) {
        1 + emissions(samples[0], samples.drop_first())
    } else {
        emissions(last, samples.drop_first())
    }
}

/// Remembers the last reported pair and reports changes only.
pub struct PresenceMonitor {
    last: PinState,
}

impl View for PresenceMonitor {
    type V = PinState;

    closed spec fn view(&self) -> PinState {
        self.last
    }
}

impl PresenceMonitor {
    /// A monitor that takes both lines as low until told otherwise.
    pub fn new() -> (r: PresenceMonitor)
        ensures
            r@ == (PinState { cts: false, dsr: false }),
    {
        PresenceMonitor { last: PinState { cts: false, dsr: false } }
    }

    /// The last reported pair.
    pub fn last_state(&self) -> (r: PinState)
        ensures
            r == self@,
    {
        self.last
    }

    /// Takes one sample taken at `now_ms` (`None` when the lines could not be
    /// read) and returns an event if and only if the pair differs from the last
    /// one reported.
    pub fn observe(&mut self, sample: Option<PinState>, now_ms: u64) -> (r: Option<PresenceEvent>)
        ensures
            match sample {
                None => r is None && final(self)@ == old(self)@,
                Some(p) => if changed(old(self)@, p) {
                    &&& r == Some(
                        PresenceEvent {
                            cts: p.cts,
                            dsr: p.dsr,
                            detected: p.cts || p.dsr,
                            timestamp_ms: now_ms,
                        },
                    )
                    &&& final(self)@ == p
                } else {
                    r is None && final(self)@ == old(self)@
                },
            },
    {
        match sample {
            None => None,
            Some(p) => {
                if p.cts != self.last.cts || p.dsr != self.last.dsr {
                    self.last = p;
                    Some(
                        PresenceEvent {
                            cts: p.cts,
                            dsr: p.dsr,
                            detected: p.cts || p.dsr,
                            timestamp_ms: now_ms,
                        },
                    )
                } else {
                    None
                }
            },
        }
    }
}

/// Sampling the same pair any number of times in a row emits at most once:
/// once if it differs from the last reported pair, never otherwise.
pub proof fn lemma_repeated_sample_emits_once(last: PinState, p: PinState, samples: Seq<PinState>)
    requires
        samples.len() > 0,
        forall|i: int| 0 <= i < samples.len() ==> samples[i] == p,
    ensures
        emissions(last, samples) <= 1,
        emissions(last, samples) == (if changed(last, p) {
            1nat
        } else {
            0nat
        }),
    decreases samples.len(),
{
    let rest = samples.drop_first();
    if rest.len() > 0 {
        assert forall|i: int| 0 <= i < rest.len() implies rest[i] == p by {
            assert(rest[i] == samples[i + 1]);
        }
        lemma_repeated_sample_emits_once(p, p, rest);
    } else {
        assert(emissions(p, rest) == 0);
        assert(emissions(last, rest) == 0);
    }
    assert(samples[0] == p);
    assert(!changed(p, p));
}

} // verus!
