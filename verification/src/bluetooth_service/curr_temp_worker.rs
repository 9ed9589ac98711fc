//! Current-temperature worker: the state machine of the task that exclusively
//! owns the read-only current-temperature characteristic.
//!
//! The current temperature cannot be written, so this worker keeps no
//! freshness flag: it only remembers the last value it managed to read, and a
//! failed remote read degrades silently to that value.
//!
//! The remote I/O itself happens outside this crate: the caller performs each
//! read and hands the outcome back in.

use vstd::prelude::*;
use crate::utils::{Temperature, wire_le_val};

verus! {

/// Last temperature the worker managed to read.
#[derive(Clone, Copy, Debug, PartialEq, Eq, Structural)]
pub struct CurrTempWorker {
    pub prev_read_val: Temperature,
}

/// A read applied to the remote outcome: a successful read is decoded and
/// cached, a failed one falls back to the last known value.
pub open spec fn spec_finish_get(s: CurrTempWorker, raw: Option<Seq<u8>>) -> (
    CurrTempWorker,
    Temperature,
) {
    match raw {
        Some(b) => {
            let t = Temperature { hundredths: (10 * wire_le_val(b)) as i64 };
            (CurrTempWorker { prev_read_val: t }, t)
        },
        None => (s, s.prev_read_val),
    }
}

/// State after a whole sequence of read outcomes.
pub open spec fn state_after(s: CurrTempWorker, evs: Seq<Option<Vec<u8>>>) -> CurrTempWorker
    decreases evs.len(),
{
    if evs.len() == 0 {
        s
    } else {
        spec_step(state_after(s, evs.drop_last()), evs.last()).0
    }
}

/// One read outcome processed against the state, and the value it returns.
pub open spec fn spec_step(s: CurrTempWorker, raw: Option<Vec<u8>>) -> (
    CurrTempWorker,
    Temperature,
) {
    spec_finish_get(s, match raw {
        Some(b) => Some(b@),
        None => None,
    })
}

/// Value returned for the `i`-th read of a sequence, in arrival order.
pub open spec fn reply_at(s: CurrTempWorker, evs: Seq<Option<Vec<u8>>>, i: int) -> Temperature {
    spec_step(state_after(s, evs.subrange(0, i)), evs[i]).1
}

/// What the worker may assume of a read outcome: raw bytes are at least the
/// two the codec needs.
pub open spec fn event_wf(ev: Option<Vec<u8>>) -> bool {
    match ev {
        Some(b) => b@.len() >= 2,
        None => true,
    }
}

impl CurrTempWorker {
    /// Bound the cached value keeps at all times.
    pub open spec fn wf(self) -> bool {
        self.prev_read_val.wf()
    }

    /// A worker starts with the zero value cached.
    pub fn new() -> (w: CurrTempWorker)
        ensures
            w.prev_read_val.hundredths == 0,
            w.wf(),
    {
        CurrTempWorker { prev_read_val: Temperature::zero() }
    }

    /// A read, fed the remote outcome: stores and returns the decoded value
    /// on success, returns the previous cache unchanged on failure. Remote
    /// read failures never surface to the caller.
    pub fn finish_get(&mut self, raw: &Option<Vec<u8>>) -> (t: Temperature)
        requires
            raw matches Some(b) ==> b@.len() >= 2,
        ensures
            (*final(self), t) == spec_finish_get(*old(self), match *raw {
                Some(b) => Some(b@),
                None => None,
            }),
            old(self).wf() ==> final(self).wf(),
    {
        match raw {
            Some(b) => {
                let t = Temperature::from_device_val(b.clone());
                self.prev_read_val = t;
                t
            },
            None => self.prev_read_val,
        }
    }

    /// Processes a batch of reads strictly in arrival order: the `i`-th
    /// returned value answers the `i`-th read.
    pub fn run_loop(&mut self, events: &Vec<Option<Vec<u8>>>) -> (replies: Vec<Temperature>)
        requires
            old(self).wf(),
            forall|i: int| 0 <= i < events@.len() ==> event_wf(#[trigger] events@[i]),
        ensures
            replies@.len() == events@.len(),
            forall|i: int| 0 <= i < events@.len() ==> replies@[i] == reply_at(
                *old(self),
                events@,
                i,
            ),
            *final(self) == state_after(*old(self), events@),
            final(self).wf(),
    {
        let mut replies: Vec<Temperature> = Vec::new();
        let n = events.len();
        let mut k: usize = 0;
        proof {
            assert(events@.subrange(0, 0) =~= Seq::<Option<Vec<u8>>>::empty());
        }
        while k < n
            invariant
                n == events@.len(),
                0 <= k <= n,
                forall|i: int| 0 <= i < events@.len() ==> event_wf(#[trigger] events@[i]),
                *self == state_after(*old(self), events@.subrange(0, k as int)),
                self.wf(),
                replies@.len() == k,
                forall|i: int| 0 <= i < k ==> replies@[i] == reply_at(*old(self), events@, i),
            decreases n - k,
        {
            let ghost pre = *self;
            let t = self.finish_get(&events[k]);
            proof {
                assert((*self, t) == spec_step(pre, events@[k as int]));
                assert(events@.subrange(0, k + 1).drop_last() =~= events@.subrange(0, k as int));
                assert(events@.subrange(0, k + 1).last() == events@[k as int]);
            }
            replies.push(t);
            k = k + 1;
        }
        proof {
            assert(events@.subrange(0, n as int) =~= events@);
        }
        replies
    }
}

} // verus!
