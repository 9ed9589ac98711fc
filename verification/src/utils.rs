//! Value codec: pure conversions between the device wire encoding, the
//! internal domain values, and the accessory-facing scale.
//!
//! Temperatures are held in hundredths of a degree Celsius, so that both the
//! device wire unit (tenths of a degree) and the accessory scale (which is
//! offset by 172.22 degrees and floored at 10.00 degrees) are exact integer
//! values. Callers that need a floating representation divide by 100 at the
//! boundary.

use vstd::prelude::*;
use vstd::arithmetic::div_mod::{
    lemma_fundamental_div_mod,
    lemma_fundamental_div_mod_converse,
};

verus! {

/// Wire sentinel in byte 0 of the thermal-mode status that signals the heat
/// relay is engaged.
pub const HEAT_ENABLED_BYTE: u8 = 0x23;

/// Wire sentinel in the high nibble of byte 1 of the thermal-mode status that
/// signals the air relay is engaged.
pub const AIR_ENABLED_NIBBLE: u8 = 0x03;

/// Calibration offset between the internal value and the accessory-facing
/// scale, in hundredths of a degree (172.22 degrees).
pub const TEMP_OFFSET_HUNDREDTHS: i64 = 17222;

/// Minimum value ever exposed on the accessory-facing scale, in hundredths of
/// a degree (10.00 degrees).
pub const EXTERNAL_FLOOR_HUNDREDTHS: i64 = 1000;

/// Bound on the magnitude of a stored temperature, in hundredths of a degree.
/// Every constructor stays within it, which keeps all arithmetic on
/// temperatures free of overflow.
pub const TEMP_ABS_LIMIT_HUNDREDTHS: i64 = 1_000_000_000;

/// Bound on the magnitude of an accessory-scale input value, in hundredths of
/// a degree. Chosen so that removing the calibration offset still lands
/// within `TEMP_ABS_LIMIT_HUNDREDTHS`.
pub const EXTERNAL_ABS_LIMIT_HUNDREDTHS: i64 = 999_000_000;

/// Thermal mode of the device: both relays off, heat only, or heat and air
/// together.
#[derive(Clone, Copy, Debug, PartialEq, Eq, Structural)]
pub enum HeatingCoolingState {
    Off,
    Heating,
    Cooling,
}

/// Meaning of the two status bytes: heat-active iff byte 0 equals the heat
/// sentinel, air-active iff the high nibble of byte 1 equals the air
/// sentinel; both active is Cooling, heat alone is Heating, anything else is
/// Off. Fewer than two bytes always decode to Off.
pub open spec fn mode_of_wire(bytes: Seq<u8>) -> HeatingCoolingState {
    if bytes.len() < 2 {
        HeatingCoolingState::Off
    } else {
        let heat_on = bytes[0] == HEAT_ENABLED_BYTE;
        let air_on = bytes[1] / 16 == AIR_ENABLED_NIBBLE;
        if air_on && heat_on {
            HeatingCoolingState::Cooling
        } else if heat_on {
            HeatingCoolingState::Heating
        } else {
            HeatingCoolingState::Off
        }
    }
}

/// Accessory-facing integer for each mode.
pub open spec fn mode_external_value(m: HeatingCoolingState) -> u8 {
    match m {
        HeatingCoolingState::Off => 0,
        HeatingCoolingState::Heating => 1,
        HeatingCoolingState::Cooling => 2,
    }
}

/// Mode selected by an accessory-facing integer: 1 is Heating, 2 is Cooling,
/// anything else is Off.
pub open spec fn mode_of_external(val: u8) -> HeatingCoolingState {
    if val == 1 {
        HeatingCoolingState::Heating
    } else if val == 2 {
        HeatingCoolingState::Cooling
    } else {
        HeatingCoolingState::Off
    }
}

impl HeatingCoolingState {
    /// Decodes the device's two status bytes. Total: any byte sequence,
    /// including one shorter than two bytes, yields a mode.
    pub fn from_device_val(vec: Vec<u8>) -> (r: HeatingCoolingState)
        ensures
            r == mode_of_wire(vec@),
    {
        if vec.len() < 2 {
            return HeatingCoolingState::Off;
        }
        let is_heat_on = vec[0] == HEAT_ENABLED_BYTE;
        let is_air_on = vec[1] / 16 == AIR_ENABLED_NIBBLE;
        if is_air_on && is_heat_on {
            HeatingCoolingState::Cooling
        } else if is_heat_on {
            HeatingCoolingState::Heating
        } else {
            HeatingCoolingState::Off
        }
    }

    /// Mode requested by an accessory-facing integer.
    pub fn from_homekit_val(val: u8) -> (r: HeatingCoolingState)
        ensures
            r == mode_of_external(val),
    {
        if val == 1 {
            HeatingCoolingState::Heating
        } else if val == 2 {
            HeatingCoolingState::Cooling
        } else {
            HeatingCoolingState::Off
        }
    }

    /// Accessory-facing integer for this mode.
    pub fn homekit_val(&self) -> (r: u8)
        ensures
            r == mode_external_value(*self),
    {
        match self {
            HeatingCoolingState::Off => 0,
            HeatingCoolingState::Heating => 1,
            HeatingCoolingState::Cooling => 2,
        }
    }
}

/// A temperature in hundredths of a degree Celsius.
#[derive(Clone, Copy, Debug, PartialEq, Eq, Structural)]
pub struct Temperature {
    pub hundredths: i64,
}

/// Signed 16-bit value carried by the first two wire bytes, little-endian,
/// two's complement.
pub open spec fn wire_le_val(bytes: Seq<u8>) -> int
    recommends
        bytes.len() >= 2,
{
    let raw = bytes[0] + 256 * bytes[1];
    if raw < 32768 {
        raw
    } else {
        raw - 65536
    }
}

/// Hundredths rounded to whole tenths, half away from zero.
pub open spec fn round_tenths(h: int) -> int {
    if h >= 0 {
        if h % 10 >= 5 {
            h / 10 + 1
        } else {
            h / 10
        }
    } else {
        if (-h) % 10 >= 5 {
            -((-h) / 10) - 1
        } else {
            -((-h) / 10)
        }
    }
}

/// Tenths value saturated to the signed 16-bit wire range.
pub open spec fn clamp_wire(t: int) -> int {
    if t > 32767 {
        32767
    } else if t < -32768 {
        -32768
    } else {
        t
    }
}

/// The two little-endian wire bytes of a tenths value in the signed 16-bit
/// range, two's complement.
pub open spec fn wire_bytes(t: int) -> Seq<u8>
    recommends
        -32768 <= t <= 32767,
{
    let u = if t >= 0 {
        t
    } else {
        t + 65536
    };
    seq![(u % 256) as u8, (u / 256) as u8]
}

/// Accessory-facing value of a temperature: the calibration offset is added
/// when requested, and the result never falls below the displayable floor.
pub open spec fn external_scale(h: int, should_scale: bool) -> int {
    let shifted = h + if should_scale {
        TEMP_OFFSET_HUNDREDTHS as int
    } else {
        0
    };
    if shifted < EXTERNAL_FLOOR_HUNDREDTHS {
        EXTERNAL_FLOOR_HUNDREDTHS as int
    } else {
        shifted
    }
}

impl Temperature {
    /// Bound every constructor establishes and every method may rely on.
    pub open spec fn wf(self) -> bool {
        -TEMP_ABS_LIMIT_HUNDREDTHS <= self.hundredths <= TEMP_ABS_LIMIT_HUNDREDTHS
    }

    /// The zero temperature, the initial content of every worker cache.
    pub fn zero() -> (t: Temperature)
        ensures
            t.hundredths == 0,
            t.wf(),
    {
        Temperature { hundredths: 0 }
    }

    /// Decodes the first two wire bytes as little-endian signed tenths of a
    /// degree. Shorter input is a caller contract violation.
    pub fn from_device_val(vec: Vec<u8>) -> (t: Temperature)
        requires
            vec@.len() >= 2,
        ensures
            t.hundredths == 10 * wire_le_val(vec@),
            t.wf(),
    {
        let b0 = vec[0];
        let b1 = vec[1];
        let raw: i64 = (b0 as i64) + 256 * (b1 as i64);
        let signed: i64 = if raw >= 32768 {
            raw - 65536
        } else {
            raw
        };
        Temperature { hundredths: 10 * signed }
    }

    /// Temperature selected by an accessory-scale value: the calibration
    /// offset is removed when requested, and nothing is clamped (the floor
    /// applies only on the way out).
    pub fn from_homekit_val(raw_val: i64, should_scale: bool) -> (t: Temperature)
        requires
            -EXTERNAL_ABS_LIMIT_HUNDREDTHS <= raw_val <= EXTERNAL_ABS_LIMIT_HUNDREDTHS,
        ensures
            t.hundredths == raw_val - if should_scale {
                TEMP_OFFSET_HUNDREDTHS as int
            } else {
                0
            },
            t.wf(),
    {
        let offset: i64 = if should_scale {
            TEMP_OFFSET_HUNDREDTHS
        } else {
            0
        };
        Temperature { hundredths: raw_val - offset }
    }

    /// Encodes this temperature for the wire: rounds to the nearest tenth of
    /// a degree (half away from zero), saturates to the signed 16-bit range,
    /// and emits the two little-endian bytes.
    pub fn device_val(&self) -> (bytes: Vec<u8>)
        requires
            self.wf(),
        ensures
            bytes@ == wire_bytes(clamp_wire(round_tenths(self.hundredths as int))),
    {
        let neg = self.hundredths < 0;
        let a: i64 = if neg {
            -self.hundredths
        } else {
            self.hundredths
        };
        let q: i64 = a / 10;
        let r: i64 = a % 10;
        let t_abs: i64 = if r >= 5 {
            q + 1
        } else {
            q
        };
        let t: i64 = if neg {
            -t_abs
        } else {
            t_abs
        };
        let t16: i64 = if t > 32767 {
            32767
        } else if t < -32768 {
            -32768
        } else {
            t
        };
        let u: i64 = if t16 >= 0 {
            t16
        } else {
            t16 + 65536
        };
        let b0: u8 = (u % 256) as u8;
        let b1: u8 = (u / 256) as u8;
        let mut bytes: Vec<u8> = Vec::new();
        bytes.push(b0);
        bytes.push(b1);
        proof {
            assert(bytes@ =~= wire_bytes(clamp_wire(round_tenths(self.hundredths as int))));
        }
        bytes
    }

    /// Accessory-facing value in hundredths of a degree: the calibration
    /// offset is added when requested, and the result is floor-clamped so
    /// that nothing below the displayable minimum is ever exposed.
    pub fn homekit_val(&self, should_scale: bool) -> (r: i64)
        requires
            self.wf(),
        ensures
            r == external_scale(self.hundredths as int, should_scale),
            r >= EXTERNAL_FLOOR_HUNDREDTHS,
    {
        let offset: i64 = if should_scale {
            TEMP_OFFSET_HUNDREDTHS
        } else {
            0
        };
        let shifted: i64 = self.hundredths + offset;
        if shifted < EXTERNAL_FLOOR_HUNDREDTHS {
            EXTERNAL_FLOOR_HUNDREDTHS
        } else {
            shifted
        }
    }
}

/// Round trip: a temperature holding a whole number of tenths within the
/// signed 16-bit wire range encodes to bytes that decode back to exactly the
/// same temperature.
pub proof fn lemma_wire_round_trip(t: Temperature)
    requires
        t.hundredths % 10 == 0,
        -327680 <= t.hundredths <= 327670,
    ensures
        10 * wire_le_val(wire_bytes(clamp_wire(round_tenths(t.hundredths as int)))) == t.hundredths,
{
    let h = t.hundredths as int;
    let x = h / 10;
    lemma_fundamental_div_mod(h, 10);
    assert(h == 10 * x);
    if h < 0 {
        lemma_fundamental_div_mod_converse(-h, 10, -x, 0);
        assert((-h) % 10 == 0);
        assert((-h) / 10 == -x);
    }
    assert(round_tenths(h) == x);
    assert(-32768 <= x <= 32767);
    assert(clamp_wire(x) == x);
    let u = if x >= 0 { x } else { x + 65536 };
    assert(0 <= u < 65536);
    lemma_fundamental_div_mod(u, 256);
    assert(0 <= u % 256 < 256);
    assert(0 <= u / 256 < 256);
    let bs = wire_bytes(x);
    assert(bs[0] == u % 256 && bs[1] == u / 256);
    assert(bs[0] + 256 * bs[1] == u);
    assert(wire_le_val(bs) == x);
}

} // verus!
