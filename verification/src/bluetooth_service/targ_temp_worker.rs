//! Target-temperature worker: the state machine of the task that exclusively
//! owns the target-temperature characteristic.
//!
//! The worker keeps the last known value and a one-shot freshness flag. A
//! write updates the cache optimistically, before the remote write has
//! completed, and the cache is not rolled back if that write fails. The next
//! read then answers from the cache without remote I/O — compensating for the
//! device's slow settle time after a write — and clears the flag, so the read
//! after that goes to the remote again. A failed remote read degrades
//! silently to the last known value.
//!
//! The remote I/O itself happens outside this crate: the caller performs the
//! read or write and hands the outcome back in.

use vstd::prelude::*;
use crate::utils::{Temperature, wire_le_val, wire_bytes, clamp_wire, round_tenths};

verus! {

/// Last known target temperature plus the one-shot freshness flag.
#[derive(Clone, Copy, Debug, PartialEq, Eq, Structural)]
pub struct TargTempWorker {
    pub prev_read_val: Temperature,
    pub is_freshly_set: bool,
}

/// One request to this worker, together with the outcome the remote side
/// gives it: a read carries the raw bytes the remote read would return
/// (`None` when it fails), a write carries the requested value and whether
/// the remote write succeeds.
pub enum TargTempEvent {
    Read { remote: Option<Vec<u8>> },
    Write { temp: Temperature, write_ok: bool },
}

/// The answer sent back through a request's reply slot.
#[derive(Clone, Copy, Debug, PartialEq, Eq, Structural)]
pub enum TargTempReply {
    Temp { value: Temperature },
    SetResult { ok: bool },
}

/// First phase of a read: a freshly written value answers at once, clearing
/// the flag; otherwise a remote read is called for.
pub open spec fn spec_take_fresh(s: TargTempWorker) -> (TargTempWorker, Option<Temperature>) {
    if s.is_freshly_set {
        (TargTempWorker { is_freshly_set: false, ..s }, Some(s.prev_read_val))
    } else {
        (s, None)
    }
}

/// Second phase of a read, applied to the remote outcome: a successful read
/// is decoded and cached, a failed one falls back to the last known value.
pub open spec fn spec_finish_get(s: TargTempWorker, raw: Option<Seq<u8>>) -> (
    TargTempWorker,
    Temperature,
) {
    match raw {
        Some(b) => {
            let t = Temperature { hundredths: (10 * wire_le_val(b)) as i64 };
            (TargTempWorker { prev_read_val: t, ..s }, t)
        },
        None => (s, s.prev_read_val),
    }
}

/// A write: the cache takes the new value and turns fresh before the remote
/// write completes, and keeps it whether or not that write succeeds.
pub open spec fn spec_apply_set(s: TargTempWorker, temp: Temperature) -> TargTempWorker {
    TargTempWorker { prev_read_val: temp, is_freshly_set: true }
}

/// One whole request processed against the state, and the reply it earns.
pub open spec fn spec_step(s: TargTempWorker, ev: TargTempEvent) -> (TargTempWorker, TargTempReply) {
    match ev {
        TargTempEvent::Read { remote } => {
            let (s1, cached) = spec_take_fresh(s);
            match cached {
                Some(v) => (s1, TargTempReply::Temp { value: v }),
                None => {
                    let (s2, v) = spec_finish_get(s1, match remote {
                        Some(b) => Some(b@),
                        None => None,
                    });
                    (s2, TargTempReply::Temp { value: v })
                },
            }
        },
        TargTempEvent::Write { temp, write_ok } => {
            (spec_apply_set(s, temp), TargTempReply::SetResult { ok: write_ok })
        },
    }
}

/// State after a whole sequence of requests.
pub open spec fn state_after(s: TargTempWorker, evs: Seq<TargTempEvent>) -> TargTempWorker
    decreases evs.len(),
{
    if evs.len() == 0 {
        s
    } else {
        spec_step(state_after(s, evs.drop_last()), evs.last()).0
    }
}

/// Reply earned by the `i`-th request of a sequence, in arrival order.
pub open spec fn reply_at(s: TargTempWorker, evs: Seq<TargTempEvent>, i: int) -> TargTempReply {
    spec_step(state_after(s, evs.subrange(0, i)), evs[i]).1
}

/// What the worker may assume of an event: raw read bytes are at least the
/// two the codec needs, and a written value is in bounds.
pub open spec fn event_wf(ev: TargTempEvent) -> bool {
    match ev {
        TargTempEvent::Read { remote } => match remote {
            Some(b) => b@.len() >= 2,
            None => true,
        },
        TargTempEvent::Write { temp, .. } => temp.wf(),
    }
}

impl TargTempWorker {
    /// Bound the cached value keeps at all times.
    pub open spec fn wf(self) -> bool {
        self.prev_read_val.wf()
    }

    /// A worker starts stale, with the zero value cached.
    pub fn new() -> (w: TargTempWorker)
        ensures
            w.prev_read_val.hundredths == 0,
            !w.is_freshly_set,
            w.wf(),
    {
        TargTempWorker { prev_read_val: Temperature::zero(), is_freshly_set: false }
    }

    /// First phase of a read: answers from the cache, without remote I/O,
    /// exactly when the cached value is fresh, clearing the flag; `None`
    /// directs the caller to perform a remote read and hand the outcome to
    /// `finish_get`.
    pub fn step_get(&mut self) -> (cached: Option<Temperature>)
        ensures
            (*final(self), cached) == spec_take_fresh(*old(self)),
    {
        if self.is_freshly_set {
            self.is_freshly_set = false;
            Some(self.prev_read_val)
        } else {
            None
        }
    }

    /// Second phase of a read, fed the remote outcome: stores and returns
    /// the decoded value on success, returns the previous cache unchanged on
    /// failure. Remote read failures never surface to the caller.
    pub fn finish_get(&mut self, raw: &Option<Vec<u8>>) -> (t: Temperature)
        requires
            raw matches Some(b) ==> b@.len() >= 2,
        ensures
            (*final(self), t) == spec_finish_get(*old(self), match *raw {
                Some(b) => Some(b@),
                None => None,
            }),
            old(self).wf() ==> final(self).wf(),
    {
        match raw {
            Some(b) => {
                let t = Temperature::from_device_val(b.clone());
                self.prev_read_val = t;
                t
            },
            None => self.prev_read_val,
        }
    }

    /// A write: caches the value and sets the freshness flag before the
    /// remote write happens, and encodes the wire bytes the caller must then
    /// write to the characteristic. The cache is not rolled back if that
    /// write fails.
    pub fn step_set(&mut self, temp: Temperature) -> (wire: Vec<u8>)
        requires
            temp.wf(),
        ensures
            *final(self) == spec_apply_set(*old(self), temp),
            final(self).wf(),
            wire@ == wire_bytes(clamp_wire(round_tenths(temp.hundredths as int))),
    {
        self.prev_read_val = temp;
        self.is_freshly_set = true;
        temp.device_val()
    }

    /// Processes a batch of requests strictly in arrival order: the `i`-th
    /// reply answers the `i`-th request, whether it was served from the
    /// cache or needed remote I/O.
    pub fn run_loop(&mut self, events: &Vec<TargTempEvent>) -> (replies: Vec<TargTempReply>)
        requires
            old(self).wf(),
            forall|i: int| 0 <= i < events@.len() ==> event_wf(#[trigger] events@[i]),
        ensures
            replies@.len() == events@.len(),
            forall|i: int| 0 <= i < events@.len() ==> replies@[i] == reply_at(
                *old(self),
                events@,
                i,
            ),
            *final(self) == state_after(*old(self), events@),
            final(self).wf(),
    {
        let mut replies: Vec<TargTempReply> = Vec::new();
        let n = events.len();
        let mut k: usize = 0;
        proof {
            assert(events@.subrange(0, 0) =~= Seq::<TargTempEvent>::empty());
        }
        while k < n
            invariant
                n == events@.len(),
                0 <= k <= n,
                forall|i: int| 0 <= i < events@.len() ==> event_wf(#[trigger] events@[i]),
                *self == state_after(*old(self), events@.subrange(0, k as int)),
                self.wf(),
                replies@.len() == k,
                forall|i: int| 0 <= i < k ==> replies@[i] == reply_at(*old(self), events@, i),
            decreases n - k,
        {
            let ghost pre = *self;
            let reply = match &events[k] {
                TargTempEvent::Read { remote } => {
                    let cached = self.step_get();
                    match cached {
                        Some(v) => TargTempReply::Temp { value: v },
                        None => {
                            let v = self.finish_get(remote);
                            TargTempReply::Temp { value: v }
                        },
                    }
                },
                TargTempEvent::Write { temp, write_ok } => {
                    let _wire = self.step_set(*temp);
                    TargTempReply::SetResult { ok: *write_ok }
                },
            };
            proof {
                assert((*self, reply) == spec_step(pre, events@[k as int]));
                assert(events@.subrange(0, k + 1).drop_last() =~= events@.subrange(0, k as int));
                assert(events@.subrange(0, k + 1).last() == events@[k as int]);
            }
            replies.push(reply);
            k = k + 1;
        }
        proof {
            assert(events@.subrange(0, n as int) =~= events@);
        }
        replies
    }
}

/// Freshness law: however a write's remote half turns out, the read right
/// after a write answers from the cache with exactly the written value and
/// asks for no remote read, while the read after that one finds the flag
/// cleared and does ask for a remote read.
pub proof fn lemma_write_then_read_freshness(s: TargTempWorker, temp: Temperature)
    ensures
        ({
            let s1 = spec_apply_set(s, temp);
            let (s2, first) = spec_take_fresh(s1);
            let (s3, second) = spec_take_fresh(s2);
            first == Some(temp) && second is None
        }),
{
}

} // verus!
