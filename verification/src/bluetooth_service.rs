//! Request model of the bridge: the closed set of operations external
//! callers may ask for, and the device-name test used while scanning for the
//! appliance.
//!
//! A request travels from the facade through the dispatcher to one of the
//! resource workers. The single-use reply slot that accompanies each request
//! in the running system is plumbing, not logic, and lives outside this
//! crate; here a request is just its operation kind and payload.

use vstd::prelude::*;
use crate::utils::{Temperature, HeatingCoolingState};

pub mod worker;
pub mod targ_temp_worker;
pub mod curr_temp_worker;
pub mod heat_air_worker;

verus! {

/// The operations the bridge accepts. Every kind except `Disconnect` is
/// answered through a reply slot held by the caller; `Disconnect` asks the
/// dispatcher to shut the bridge down.
#[derive(Clone, Copy, Debug, PartialEq, Eq, Structural)]
pub enum Message {
    GetCurrTemp,
    GetTargTemp,
    GetHeatAirState,
    SetTargTemp { temp: Temperature },
    SetHeatAirState { state: HeatingCoolingState },
    Disconnect,
}

/// The byte form of the marker every matching device advertises in its name.
pub open spec fn volcano_marker() -> Seq<u8> {
    seq![86u8, 79u8, 76u8, 67u8, 65u8, 78u8, 79u8]
}

/// A name matches when the marker occurs in it as a contiguous run of bytes.
pub open spec fn volcano_name_present(s: Seq<u8>) -> bool {
    exists|i: int| 0 <= i && i + 7 <= s.len() && #[trigger] s.subrange(i, i + 7) == volcano_marker()
}

/// Whether the marker occurs at position `i` of the name.
fn marker_at(name: &Vec<u8>, i: usize) -> (r: bool)
    requires
        i + 7 <= name@.len(),
    ensures
        r == (name@.subrange(i as int, i as int + 7) == volcano_marker()),
{
    // an exec length is a machine word, which bounds the index sums below
    let _len = name.len();
    let r = name[i] == 86 && name[i + 1] == 79 && name[i + 2] == 76 && name[i + 3] == 67
        && name[i + 4] == 65 && name[i + 5] == 78 && name[i + 6] == 79;
    proof {
        let sub = name@.subrange(i as int, i as int + 7);
        if r {
            assert(sub =~= volcano_marker());
        } else {
            if sub == volcano_marker() {
                assert(forall|k: int| 0 <= k < 7 ==> name@[i + k] == volcano_marker()[k]) by {
                    assert(forall|k: int| 0 <= k < 7 ==> sub[k] == name@[i + k]);
                }
                assert(false);
            }
        }
    }
    r
}

/// Decides, from the advertised name, whether a discovered device is the
/// appliance this bridge talks to.
pub fn name_matches_volcano(name: &Vec<u8>) -> (r: bool)
    ensures
        r == volcano_name_present(name@),
{
    let n = name.len();
    if n < 7 {
        return false;
    }
    let mut i: usize = 0;
    while i <= n - 7
        invariant
            n == name@.len(),
            7 <= n,
            0 <= i <= n,
            forall|j: int| 0 <= j < i ==> #[trigger] name@.subrange(j, j + 7) != volcano_marker(),
        decreases n - i,
    {
        if marker_at(name, i) {
            return true;
        }
        i = i + 1;
    }
    false
}

} // verus!
