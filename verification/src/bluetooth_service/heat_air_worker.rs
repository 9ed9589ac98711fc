//! Thermal-mode worker: the state machine of the task that exclusively owns
//! the mode-status characteristic and the four single-purpose toggle
//! characteristics.
//!
//! Reads follow the same cache-and-freshness policy as the target-temperature
//! worker. A mode write maps the requested mode to a pair of toggle
//! operations, issued against two independent characteristics; the write is
//! reported successful once both have been attempted, whatever their
//! individual outcomes.
//!
//! The remote I/O itself happens outside this crate: the caller performs the
//! reads and toggle writes and hands the outcomes back in.

use vstd::prelude::*;
use crate::utils::{HeatingCoolingState, mode_of_wire};

verus! {

/// Last known thermal mode plus the one-shot freshness flag.
#[derive(Clone, Copy, Debug, PartialEq, Eq, Structural)]
pub struct HeatAirStateWorker {
    pub curr_heating_cooling_state: HeatingCoolingState,
    pub is_freshly_set: bool,
}

/// The four write-only toggle characteristics a mode write can drive.
#[derive(Clone, Copy, Debug, PartialEq, Eq, Structural)]
pub enum ToggleOp {
    StartHeat,
    StopHeat,
    StartAir,
    StopAir,
}

/// One request to this worker, together with the outcome the remote side
/// gives it: a read carries the raw bytes the remote read would return
/// (`None` when it fails); a write carries only the requested mode, since its
/// per-toggle outcomes are discarded.
pub enum HeatAirEvent {
    Read { remote: Option<Vec<u8>> },
    Write { state: HeatingCoolingState },
}

/// The answer sent back through a request's reply slot.
#[derive(Clone, Copy, Debug, PartialEq, Eq, Structural)]
pub enum HeatAirReply {
    State { value: HeatingCoolingState },
    SetResult { ok: bool },
}

/// The pair of toggle operations a mode write issues: heat on plus air off
/// for Heating, heat on plus air on for Cooling, heat off plus air off for
/// Off.
pub open spec fn spec_toggle_plan(state: HeatingCoolingState) -> (ToggleOp, ToggleOp) {
    match state {
        HeatingCoolingState::Heating => (ToggleOp::StartHeat, ToggleOp::StopAir),
        HeatingCoolingState::Cooling => (ToggleOp::StartHeat, ToggleOp::StartAir),
        HeatingCoolingState::Off => (ToggleOp::StopHeat, ToggleOp::StopAir),
    }
}

/// First phase of a read: a freshly written mode answers at once, clearing
/// the flag; otherwise a remote read is called for.
pub open spec fn spec_take_fresh(s: HeatAirStateWorker) -> (
    HeatAirStateWorker,
    Option<HeatingCoolingState>,
) {
    if s.is_freshly_set {
        (
            HeatAirStateWorker { is_freshly_set: false, ..s },
            Some(s.curr_heating_cooling_state),
        )
    } else {
        (s, None)
    }
}

/// Second phase of a read, applied to the remote outcome: a successful read
/// is decoded and cached, a failed one falls back to the last known mode.
pub open spec fn spec_finish_get(s: HeatAirStateWorker, raw: Option<Seq<u8>>) -> (
    HeatAirStateWorker,
    HeatingCoolingState,
) {
    match raw {
        Some(b) => {
            let m = mode_of_wire(b);
            (HeatAirStateWorker { curr_heating_cooling_state: m, ..s }, m)
        },
        None => (s, s.curr_heating_cooling_state),
    }
}

/// A write: the cache takes the new mode and turns fresh before the toggles
/// are driven, and keeps it whatever their outcomes.
pub open spec fn spec_apply_set(s: HeatAirStateWorker, state: HeatingCoolingState)
    -> HeatAirStateWorker {
    HeatAirStateWorker { curr_heating_cooling_state: state, is_freshly_set: true }
}

/// One whole request processed against the state, and the reply it earns. A
/// write always reports success, because the per-toggle outcomes are not
/// distinguished.
pub open spec fn spec_step(s: HeatAirStateWorker, ev: HeatAirEvent) -> (
    HeatAirStateWorker,
    HeatAirReply,
) {
    match ev {
        HeatAirEvent::Read { remote } => {
            let (s1, cached) = spec_take_fresh(s);
            match cached {
                Some(m) => (s1, HeatAirReply::State { value: m }),
                None => {
                    let (s2, m) = spec_finish_get(s1, match remote {
                        Some(b) => Some(b@),
                        None => None,
                    });
                    (s2, HeatAirReply::State { value: m })
                },
            }
        },
        HeatAirEvent::Write { state } => {
            (spec_apply_set(s, state), HeatAirReply::SetResult { ok: true })
        },
    }
}

/// State after a whole sequence of requests.
pub open spec fn state_after(s: HeatAirStateWorker, evs: Seq<HeatAirEvent>) -> HeatAirStateWorker
    decreases evs.len(),
{
    if evs.len() == 0 {
        s
    } else {
        spec_step(state_after(s, evs.drop_last()), evs.last()).0
    }
}

/// Reply earned by the `i`-th request of a sequence, in arrival order.
pub open spec fn reply_at(s: HeatAirStateWorker, evs: Seq<HeatAirEvent>, i: int) -> HeatAirReply {
    spec_step(state_after(s, evs.subrange(0, i)), evs[i]).1
}

impl HeatAirStateWorker {
    /// A worker starts stale, with the Off mode cached.
    pub fn new() -> (w: HeatAirStateWorker)
        ensures
            w.curr_heating_cooling_state == HeatingCoolingState::Off,
            !w.is_freshly_set,
    {
        HeatAirStateWorker {
            curr_heating_cooling_state: HeatingCoolingState::Off,
            is_freshly_set: false,
        }
    }

    /// First phase of a read: answers from the cache, without remote I/O,
    /// exactly when the cached mode is fresh, clearing the flag; `None`
    /// directs the caller to perform a remote read and hand the outcome to
    /// `finish_get`.
    pub fn step_get(&mut self) -> (cached: Option<HeatingCoolingState>)
        ensures
            (*final(self), cached) == spec_take_fresh(*old(self)),
    {
        if self.is_freshly_set {
            self.is_freshly_set = false;
            Some(self.curr_heating_cooling_state)
        } else {
            None
        }
    }

    /// Second phase of a read, fed the remote outcome: stores and returns
    /// the decoded mode on success (the mode decode is total, so any byte
    /// length will do), returns the previous cache unchanged on failure.
    /// Remote read failures never surface to the caller.
    pub fn finish_get(&mut self, raw: &Option<Vec<u8>>) -> (m: HeatingCoolingState)
        ensures
            (*final(self), m) == spec_finish_get(*old(self), match *raw {
                Some(b) => Some(b@),
                None => None,
            }),
    {
        match raw {
            Some(b) => {
                let m = HeatingCoolingState::from_device_val(b.clone());
                self.curr_heating_cooling_state = m;
                m
            },
            None => self.curr_heating_cooling_state,
        }
    }

    /// A write: caches the mode and sets the freshness flag before any
    /// toggle is driven, and names the two toggle operations the caller must
    /// then issue, concurrently, against their characteristics. The cache is
    /// not rolled back if either toggle fails.
    pub fn step_set(&mut self, state: HeatingCoolingState) -> (ops: (ToggleOp, ToggleOp))
        ensures
            *final(self) == spec_apply_set(*old(self), state),
            ops == spec_toggle_plan(state),
    {
        self.curr_heating_cooling_state = state;
        self.is_freshly_set = true;
        match state {
            HeatingCoolingState::Heating => (ToggleOp::StartHeat, ToggleOp::StopAir),
            HeatingCoolingState::Cooling => (ToggleOp::StartHeat, ToggleOp::StartAir),
            HeatingCoolingState::Off => (ToggleOp::StopHeat, ToggleOp::StopAir),
        }
    }

    /// Processes a batch of requests strictly in arrival order: the `i`-th
    /// reply answers the `i`-th request, whether it was served from the
    /// cache or needed remote I/O.
    pub fn run_loop(&mut self, events: &Vec<HeatAirEvent>) -> (replies: Vec<HeatAirReply>)
        ensures
            replies@.len() == events@.len(),
            forall|i: int| 0 <= i < events@.len() ==> replies@[i] == reply_at(
                *old(self),
                events@,
                i,
            ),
            *final(self) == state_after(*old(self), events@),
    {
        let mut replies: Vec<HeatAirReply> = Vec::new();
        let n = events.len();
        let mut k: usize = 0;
        proof {
            assert(events@.subrange(0, 0) =~= Seq::<HeatAirEvent>::empty());
        }
        while k < n
            invariant
                n == events@.len(),
                0 <= k <= n,
                *self == state_after(*old(self), events@.subrange(0, k as int)),
                replies@.len() == k,
                forall|i: int| 0 <= i < k ==> replies@[i] == reply_at(*old(self), events@, i),
            decreases n - k,
        {
            let ghost pre = *self;
            let reply = match &events[k] {
                HeatAirEvent::Read { remote } => {
                    let cached = self.step_get();
                    match cached {
                        Some(m) => HeatAirReply::State { value: m },
                        None => {
                            let m = self.finish_get(remote);
                            HeatAirReply::State { value: m }
                        },
                    }
                },
                HeatAirEvent::Write { state } => {
                    let _ops = self.step_set(*state);
                    HeatAirReply::SetResult { ok: true }
                },
            };
            proof {
                assert((*self, reply) == spec_step(pre, events@[k as int]));
                assert(events@.subrange(0, k + 1).drop_last() =~= events@.subrange(0, k as int));
                assert(events@.subrange(0, k + 1).last() == events@[k as int]);
            }
            replies.push(reply);
            k = k + 1;
        }
        proof {
            assert(events@.subrange(0, n as int) =~= events@);
        }
        replies
    }
}

/// Freshness law: the read right after a mode write answers from the cache
/// with exactly the written mode and asks for no remote read, while the read
/// after that one finds the flag cleared and does ask for a remote read.
pub proof fn lemma_write_then_read_freshness(s: HeatAirStateWorker, state: HeatingCoolingState)
    ensures
        ({
            let s1 = spec_apply_set(s, state);
            let (s2, first) = spec_take_fresh(s1);
            let (s3, second) = spec_take_fresh(s2);
            first == Some(state) && second is None
        }),
{
}

} // verus!
