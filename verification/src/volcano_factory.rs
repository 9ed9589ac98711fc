//! Decisions made at the accessory-facing edge of the bridge.
//!
//! The accessory server itself — its characteristic registry, callbacks and
//! polling loop — lives outside this crate. The one piece of logic it defers
//! to the bridge is the echo-write test: a foreground temperature write is
//! forwarded to the device only while the device's own target value still
//! matches the value the accessory last knew, which suppresses echo writes
//! caused by the device updating itself.

use vstd::prelude::*;
use crate::utils::{Temperature, external_scale};

verus! {

/// Whether a foreground target-temperature write should be forwarded to the
/// device: yes exactly when the device's current target value, on the
/// accessory scale (offset applied, in hundredths of a degree), still equals
/// the accessory's previous value.
pub fn should_forward_temp_write(curr_device_temp: Temperature, old_external_val: i64) -> (r:
    bool)
    requires
        curr_device_temp.wf(),
    ensures
        r == (external_scale(curr_device_temp.hundredths as int, true) == old_external_val),
{
    curr_device_temp.homekit_val(true) == old_external_val
}

} // verus!
