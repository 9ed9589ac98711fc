//! Dispatcher: the component that owns the device connection, discovers the
//! required characteristics at startup, routes every request to the worker
//! that owns the matching resource, and performs graceful shutdown.
//!
//! The radio calls themselves (connect, disconnect, service enumeration)
//! happen outside this crate. What is modelled and proved here is every
//! decision the dispatcher takes: which discovered identifier fills which
//! slot, when discovery is complete, how many failed connection attempts are
//! retried, where each request goes, and that nothing enqueued after shutdown
//! is ever answered.

use vstd::prelude::*;
use crate::bluetooth_service::Message;

verus! {

/// Identifier of the first relevant service group.
pub const SERVICE1_UUID: u128 = 0x10100000_5354_4f52_5a26_4249434b454c;

/// Identifier of the second relevant service group.
pub const SERVICE2_UUID: u128 = 0x10110000_5354_4f52_5a26_4249434b454c;

/// Identifier of the firmware-revision characteristic (read-only metadata).
pub const FIRMWARE_CHAR_UUID: u128 = 0x10100005_5354_4f52_5a26_4249434b454c;

/// Identifier of the serial-number characteristic (read-only metadata).
pub const SERIAL_CHAR_UUID: u128 = 0x10100008_5354_4f52_5a26_4249434b454c;

/// Identifier of the model-name characteristic (read-only metadata).
pub const MODEL_CHAR_UUID: u128 = 0x10100007_5354_4f52_5a26_4249434b454c;

/// Identifier of the current-temperature characteristic.
pub const CURR_TEMP_CHAR_UUID: u128 = 0x10110001_5354_4f52_5a26_4249434b454c;

/// Identifier of the target-temperature characteristic.
pub const TARG_TEMP_CHAR_UUID: u128 = 0x10110003_5354_4f52_5a26_4249434b454c;

/// Identifier of the thermal-mode status characteristic.
pub const IS_HEATORAIR_ENABLED_CHAR_UUID: u128 = 0x1010000c_5354_4f52_5a26_4249434b454c;

/// Identifier of the start-heat toggle characteristic.
pub const START_HEAT_CHAR_UUID: u128 = 0x1011000f_5354_4f52_5a26_4249434b454c;

/// Identifier of the stop-heat toggle characteristic.
pub const STOP_HEAT_CHAR_UUID: u128 = 0x10110010_5354_4f52_5a26_4249434b454c;

/// Identifier of the start-air toggle characteristic.
pub const START_AIR_CHAR_UUID: u128 = 0x10110013_5354_4f52_5a26_4249434b454c;

/// Identifier of the stop-air toggle characteristic.
pub const STOP_AIR_CHAR_UUID: u128 = 0x10110014_5354_4f52_5a26_4249434b454c;

/// How many times a failed connection attempt is retried before the failure
/// becomes fatal to the whole bridge.
pub const CONNECT_RETRIES: u32 = 2;

/// The ten required characteristic slots, one per fixed identifier.
#[derive(Clone, Copy, Debug, PartialEq, Eq, Structural)]
pub enum CharSlot {
    Firmware,
    Model,
    Serial,
    CurrTemp,
    TargTemp,
    HeatOrAirEnabled,
    StartHeat,
    StopHeat,
    StartAir,
    StopAir,
}

/// Slot a discovered characteristic identifier fills, if any.
pub open spec fn spec_classify_characteristic(uuid: u128) -> Option<CharSlot> {
    if uuid == FIRMWARE_CHAR_UUID {
        Some(CharSlot::Firmware)
    } else if uuid == MODEL_CHAR_UUID {
        Some(CharSlot::Model)
    } else if uuid == SERIAL_CHAR_UUID {
        Some(CharSlot::Serial)
    } else if uuid == CURR_TEMP_CHAR_UUID {
        Some(CharSlot::CurrTemp)
    } else if uuid == TARG_TEMP_CHAR_UUID {
        Some(CharSlot::TargTemp)
    } else if uuid == IS_HEATORAIR_ENABLED_CHAR_UUID {
        Some(CharSlot::HeatOrAirEnabled)
    } else if uuid == START_HEAT_CHAR_UUID {
        Some(CharSlot::StartHeat)
    } else if uuid == STOP_HEAT_CHAR_UUID {
        Some(CharSlot::StopHeat)
    } else if uuid == START_AIR_CHAR_UUID {
        Some(CharSlot::StartAir)
    } else if uuid == STOP_AIR_CHAR_UUID {
        Some(CharSlot::StopAir)
    } else {
        None
    }
}

/// Classifies a discovered characteristic identifier into the slot it fills,
/// or `None` for one this bridge does not use.
pub fn classify_characteristic(uuid: u128) -> (r: Option<CharSlot>)
    ensures
        r == spec_classify_characteristic(uuid),
{
    if uuid == FIRMWARE_CHAR_UUID {
        Some(CharSlot::Firmware)
    } else if uuid == MODEL_CHAR_UUID {
        Some(CharSlot::Model)
    } else if uuid == SERIAL_CHAR_UUID {
        Some(CharSlot::Serial)
    } else if uuid == CURR_TEMP_CHAR_UUID {
        Some(CharSlot::CurrTemp)
    } else if uuid == TARG_TEMP_CHAR_UUID {
        Some(CharSlot::TargTemp)
    } else if uuid == IS_HEATORAIR_ENABLED_CHAR_UUID {
        Some(CharSlot::HeatOrAirEnabled)
    } else if uuid == START_HEAT_CHAR_UUID {
        Some(CharSlot::StartHeat)
    } else if uuid == STOP_HEAT_CHAR_UUID {
        Some(CharSlot::StopHeat)
    } else if uuid == START_AIR_CHAR_UUID {
        Some(CharSlot::StartAir)
    } else if uuid == STOP_AIR_CHAR_UUID {
        Some(CharSlot::StopAir)
    } else {
        None
    }
}

/// Whether a service group holds characteristics this bridge uses: only the
/// two fixed service identifiers are enumerated.
pub fn is_relevant_service(uuid: u128) -> (r: bool)
    ensures
        r == (uuid == SERVICE1_UUID || uuid == SERVICE2_UUID),
{
    uuid == SERVICE1_UUID || uuid == SERVICE2_UUID
}

/// The ten discovered characteristic handles, one per required slot, each an
/// index the caller assigned to the handle it keeps.
#[derive(Clone, Copy, Debug, PartialEq, Eq, Structural)]
pub struct CharacteristicSet {
    pub firmware: usize,
    pub model: usize,
    pub serial: usize,
    pub curr_temp: usize,
    pub targ_temp: usize,
    pub heat_or_air_enabled: usize,
    pub start_heat: usize,
    pub stop_heat: usize,
    pub start_air: usize,
    pub stop_air: usize,
}

/// Accumulates discovered handles slot by slot, so that completeness is
/// checked once, at the end of enumeration, and a missing required
/// characteristic is reported by name instead of failing on first use.
#[derive(Clone, Copy, Debug, PartialEq, Eq, Structural)]
pub struct CharacteristicSetBuilder {
    pub firmware: Option<usize>,
    pub model: Option<usize>,
    pub serial: Option<usize>,
    pub curr_temp: Option<usize>,
    pub targ_temp: Option<usize>,
    pub heat_or_air_enabled: Option<usize>,
    pub start_heat: Option<usize>,
    pub stop_heat: Option<usize>,
    pub start_air: Option<usize>,
    pub stop_air: Option<usize>,
}

/// The builder with one slot filled (a second discovery of the same slot
/// keeps the later handle, as the enumeration order dictates).
pub open spec fn spec_record(b: CharacteristicSetBuilder, slot: CharSlot, handle: usize)
    -> CharacteristicSetBuilder {
    match slot {
        CharSlot::Firmware => CharacteristicSetBuilder { firmware: Some(handle), ..b },
        CharSlot::Model => CharacteristicSetBuilder { model: Some(handle), ..b },
        CharSlot::Serial => CharacteristicSetBuilder { serial: Some(handle), ..b },
        CharSlot::CurrTemp => CharacteristicSetBuilder { curr_temp: Some(handle), ..b },
        CharSlot::TargTemp => CharacteristicSetBuilder { targ_temp: Some(handle), ..b },
        CharSlot::HeatOrAirEnabled => CharacteristicSetBuilder {
            heat_or_air_enabled: Some(handle),
            ..b
        },
        CharSlot::StartHeat => CharacteristicSetBuilder { start_heat: Some(handle), ..b },
        CharSlot::StopHeat => CharacteristicSetBuilder { stop_heat: Some(handle), ..b },
        CharSlot::StartAir => CharacteristicSetBuilder { start_air: Some(handle), ..b },
        CharSlot::StopAir => CharacteristicSetBuilder { stop_air: Some(handle), ..b },
    }
}

/// First slot still unfilled, in a fixed order, or `None` when discovery is
/// complete.
pub open spec fn spec_first_missing(b: CharacteristicSetBuilder) -> Option<CharSlot> {
    if b.firmware is None {
        Some(CharSlot::Firmware)
    } else if b.model is None {
        Some(CharSlot::Model)
    } else if b.serial is None {
        Some(CharSlot::Serial)
    } else if b.curr_temp is None {
        Some(CharSlot::CurrTemp)
    } else if b.targ_temp is None {
        Some(CharSlot::TargTemp)
    } else if b.heat_or_air_enabled is None {
        Some(CharSlot::HeatOrAirEnabled)
    } else if b.start_heat is None {
        Some(CharSlot::StartHeat)
    } else if b.stop_heat is None {
        Some(CharSlot::StopHeat)
    } else if b.start_air is None {
        Some(CharSlot::StartAir)
    } else if b.stop_air is None {
        Some(CharSlot::StopAir)
    } else {
        None
    }
}

impl CharacteristicSetBuilder {
    /// An empty builder: nothing discovered yet.
    pub fn new() -> (b: CharacteristicSetBuilder)
        ensures
            spec_first_missing(b) == Some(CharSlot::Firmware),
            b.firmware is None && b.model is None && b.serial is None && b.curr_temp is None
                && b.targ_temp is None && b.heat_or_air_enabled is None && b.start_heat is None
                && b.stop_heat is None && b.start_air is None && b.stop_air is None,
    {
        CharacteristicSetBuilder {
            firmware: None,
            model: None,
            serial: None,
            curr_temp: None,
            targ_temp: None,
            heat_or_air_enabled: None,
            start_heat: None,
            stop_heat: None,
            start_air: None,
            stop_air: None,
        }
    }

    /// Files a discovered handle under its slot.
    pub fn record(&mut self, slot: CharSlot, handle: usize)
        ensures
            *final(self) == spec_record(*old(self), slot, handle),
    {
        match slot {
            CharSlot::Firmware => self.firmware = Some(handle),
            CharSlot::Model => self.model = Some(handle),
            CharSlot::Serial => self.serial = Some(handle),
            CharSlot::CurrTemp => self.curr_temp = Some(handle),
            CharSlot::TargTemp => self.targ_temp = Some(handle),
            CharSlot::HeatOrAirEnabled => self.heat_or_air_enabled = Some(handle),
            CharSlot::StartHeat => self.start_heat = Some(handle),
            CharSlot::StopHeat => self.stop_heat = Some(handle),
            CharSlot::StartAir => self.start_air = Some(handle),
            CharSlot::StopAir => self.stop_air = Some(handle),
        }
    }

    /// Validates completeness once, after enumeration: every required slot
    /// must have been discovered, and the first missing one is named in the
    /// error. Missing any required characteristic is a fatal startup error —
    /// the dispatcher cannot be constructed.
    pub fn build(self) -> (r: Result<CharacteristicSet, CharSlot>)
        ensures
            (r is Err) == (spec_first_missing(self) is Some),
            r matches Err(slot) ==> Some(slot) == spec_first_missing(self),
            r matches Ok(set) ==> Some(set.firmware) == self.firmware && Some(set.model)
                == self.model && Some(set.serial) == self.serial && Some(set.curr_temp)
                == self.curr_temp && Some(set.targ_temp) == self.targ_temp && Some(
                set.heat_or_air_enabled,
            ) == self.heat_or_air_enabled && Some(set.start_heat) == self.start_heat && Some(
                set.stop_heat,
            ) == self.stop_heat && Some(set.start_air) == self.start_air && Some(set.stop_air)
                == self.stop_air,
    {
        let firmware = match self.firmware {
            Some(h) => h,
            None => {
                return Err(CharSlot::Firmware);
            },
        };
        let model = match self.model {
            Some(h) => h,
            None => {
                return Err(CharSlot::Model);
            },
        };
        let serial = match self.serial {
            Some(h) => h,
            None => {
                return Err(CharSlot::Serial);
            },
        };
        let curr_temp = match self.curr_temp {
            Some(h) => h,
            None => {
                return Err(CharSlot::CurrTemp);
            },
        };
        let targ_temp = match self.targ_temp {
            Some(h) => h,
            None => {
                return Err(CharSlot::TargTemp);
            },
        };
        let heat_or_air_enabled = match self.heat_or_air_enabled {
            Some(h) => h,
            None => {
                return Err(CharSlot::HeatOrAirEnabled);
            },
        };
        let start_heat = match self.start_heat {
            Some(h) => h,
            None => {
                return Err(CharSlot::StartHeat);
            },
        };
        let stop_heat = match self.stop_heat {
            Some(h) => h,
            None => {
                return Err(CharSlot::StopHeat);
            },
        };
        let start_air = match self.start_air {
            Some(h) => h,
            None => {
                return Err(CharSlot::StartAir);
            },
        };
        let stop_air = match self.stop_air {
            Some(h) => h,
            None => {
                return Err(CharSlot::StopAir);
            },
        };
        Ok(
            CharacteristicSet {
                firmware,
                model,
                serial,
                curr_temp,
                targ_temp,
                heat_or_air_enabled,
                start_heat,
                stop_heat,
                start_air,
                stop_air,
            },
        )
    }

    /// Short name of a slot, for the startup error that reports a required
    /// characteristic as missing.
    pub fn slot_name(slot: CharSlot) -> (r: &'static str)
        ensures
            r@ == spec_slot_name(slot),
    {
        match slot {
            CharSlot::Firmware => "firmware",
            CharSlot::Model => "model",
            CharSlot::Serial => "serial",
            CharSlot::CurrTemp => "current temperature",
            CharSlot::TargTemp => "target temperature",
            CharSlot::HeatOrAirEnabled => "heat or air enabled",
            CharSlot::StartHeat => "start heat",
            CharSlot::StopHeat => "stop heat",
            CharSlot::StartAir => "start air",
            CharSlot::StopAir => "stop air",
        }
    }
}

/// Name of each slot.
pub open spec fn spec_slot_name(slot: CharSlot) -> Seq<char> {
    match slot {
        CharSlot::Firmware => "firmware"@,
        CharSlot::Model => "model"@,
        CharSlot::Serial => "serial"@,
        CharSlot::CurrTemp => "current temperature"@,
        CharSlot::TargTemp => "target temperature"@,
        CharSlot::HeatOrAirEnabled => "heat or air enabled"@,
        CharSlot::StartHeat => "start heat"@,
        CharSlot::StopHeat => "stop heat"@,
        CharSlot::StartAir => "start air"@,
        CharSlot::StopAir => "stop air"@,
    }
}

/// Remaining budget of connection retries. The policy is a fixed attempt
/// count with no delay between attempts; exhausting it is fatal to the whole
/// bridge.
#[derive(Clone, Copy, Debug, PartialEq, Eq, Structural)]
pub struct ConnectRetry {
    pub retries_left: u32,
}

impl ConnectRetry {
    /// A fresh budget of `retries` retries (so at most `retries + 1`
    /// connection attempts in all).
    pub fn new(retries: u32) -> (c: ConnectRetry)
        ensures
            c.retries_left == retries,
    {
        ConnectRetry { retries_left: retries }
    }

    /// Charges one failed attempt against the budget: `true` directs the
    /// caller to try connecting once more, `false` says the retries are
    /// exhausted and the failure is fatal.
    pub fn should_retry_after_failure(&mut self) -> (r: bool)
        ensures
            r == (old(self).retries_left > 0),
            final(self).retries_left == if old(self).retries_left > 0 {
                (old(self).retries_left - 1) as u32
            } else {
                0u32
            },
    {
        if self.retries_left > 0 {
            self.retries_left = self.retries_left - 1;
            true
        } else {
            false
        }
    }
}

/// The worker a request is routed to.
#[derive(Clone, Copy, Debug, PartialEq, Eq, Structural)]
pub enum Route {
    CurrTemp,
    TargTemp,
    HeatAir,
}

/// What the dispatcher does with one inbound request.
#[derive(Clone, Copy, Debug, PartialEq, Eq, Structural)]
pub enum DispatchAction {
    /// Forwarded verbatim, reply slot and all, to the worker's queue.
    Forward { route: Route },
    /// Disconnect the device, answer on the request's own slot, stop.
    DisconnectAndStop,
    /// The dispatcher has terminated: the request is never answered, its
    /// reply slot is dropped.
    Dropped,
}

/// Worker whose resource a request reads or writes; `None` for the shutdown
/// request, which the dispatcher handles itself.
pub open spec fn spec_route(m: Message) -> Option<Route> {
    match m {
        Message::GetCurrTemp => Some(Route::CurrTemp),
        Message::GetTargTemp => Some(Route::TargTemp),
        Message::SetTargTemp { .. } => Some(Route::TargTemp),
        Message::GetHeatAirState => Some(Route::HeatAir),
        Message::SetHeatAirState { .. } => Some(Route::HeatAir),
        Message::Disconnect => None,
    }
}

/// Dispatcher state: whether its request loop is still consuming requests.
#[derive(Clone, Copy, Debug, PartialEq, Eq, Structural)]
pub struct Worker {
    pub running: bool,
}

/// One request handled against the dispatcher state: while running, a
/// read or write is forwarded to its worker and a shutdown request
/// disconnects and terminates the loop; once terminated, every request is
/// dropped unanswered.
pub open spec fn spec_handle(s: Worker, m: Message) -> (Worker, DispatchAction) {
    if !s.running {
        (s, DispatchAction::Dropped)
    } else {
        match spec_route(m) {
            Some(r) => (s, DispatchAction::Forward { route: r }),
            None => (Worker { running: false }, DispatchAction::DisconnectAndStop),
        }
    }
}

/// State after a whole sequence of requests.
pub open spec fn state_after(s: Worker, msgs: Seq<Message>) -> Worker
    decreases msgs.len(),
{
    if msgs.len() == 0 {
        s
    } else {
        spec_handle(state_after(s, msgs.drop_last()), msgs.last()).0
    }
}

/// Action taken on the `i`-th request of a sequence, in arrival order.
pub open spec fn action_at(s: Worker, msgs: Seq<Message>, i: int) -> DispatchAction {
    spec_handle(state_after(s, msgs.subrange(0, i)), msgs[i]).1
}

impl Worker {
    /// A dispatcher starts with its request loop running.
    pub fn new() -> (w: Worker)
        ensures
            w.running,
    {
        Worker { running: true }
    }

    /// Routes a read or write to its worker; the shutdown request is the
    /// dispatcher's own and yields no route.
    pub fn route_message(m: &Message) -> (r: Option<Route>)
        ensures
            r == spec_route(*m),
    {
        match m {
            Message::GetCurrTemp => Some(Route::CurrTemp),
            Message::GetTargTemp => Some(Route::TargTemp),
            Message::SetTargTemp { .. } => Some(Route::TargTemp),
            Message::GetHeatAirState => Some(Route::HeatAir),
            Message::SetHeatAirState { .. } => Some(Route::HeatAir),
            Message::Disconnect => None,
        }
    }

    /// Handles one inbound request: forwards it, or disconnects and stops,
    /// or — once stopped — drops it unanswered.
    pub fn handle_message(&mut self, m: &Message) -> (a: DispatchAction)
        ensures
            (*final(self), a) == spec_handle(*old(self), *m),
    {
        if !self.running {
            return DispatchAction::Dropped;
        }
        match Self::route_message(m) {
            Some(r) => DispatchAction::Forward { route: r },
            None => {
                self.running = false;
                DispatchAction::DisconnectAndStop
            },
        }
    }

    /// Handles a batch of requests strictly in arrival order: the `i`-th
    /// action is taken on the `i`-th request.
    pub fn run_loop(&mut self, msgs: &Vec<Message>) -> (actions: Vec<DispatchAction>)
        ensures
            actions@.len() == msgs@.len(),
            forall|i: int| 0 <= i < msgs@.len() ==> actions@[i] == action_at(*old(self), msgs@, i),
            *final(self) == state_after(*old(self), msgs@),
    {
        let mut actions: Vec<DispatchAction> = Vec::new();
        let n = msgs.len();
        let mut k: usize = 0;
        proof {
            assert(msgs@.subrange(0, 0) =~= Seq::<Message>::empty());
        }
        while k < n
            invariant
                n == msgs@.len(),
                0 <= k <= n,
                *self == state_after(*old(self), msgs@.subrange(0, k as int)),
                actions@.len() == k,
                forall|i: int| 0 <= i < k ==> actions@[i] == action_at(*old(self), msgs@, i),
            decreases n - k,
        {
            let ghost pre = *self;
            let a = self.handle_message(&msgs[k]);
            proof {
                assert((*self, a) == spec_handle(pre, msgs@[k as int]));
                assert(msgs@.subrange(0, k + 1).drop_last() =~= msgs@.subrange(0, k as int));
                assert(msgs@.subrange(0, k + 1).last() == msgs@[k as int]);
            }
            actions.push(a);
            k = k + 1;
        }
        proof {
            assert(msgs@.subrange(0, n as int) =~= msgs@);
        }
        actions
    }
}

/// A terminated dispatcher stays terminated, and every request handed to it
/// afterwards, however long the sequence, is dropped unanswered.
pub proof fn lemma_stopped_stays_stopped(s: Worker, msgs: Seq<Message>)
    requires
        !s.running,
    ensures
        state_after(s, msgs) == s,
        forall|i: int| 0 <= i < msgs.len() ==> action_at(s, msgs, i) == DispatchAction::Dropped,
    decreases msgs.len(),
{
    if msgs.len() > 0 {
        lemma_stopped_stays_stopped(s, msgs.drop_last());
    }
    assert forall|i: int| 0 <= i < msgs.len() implies action_at(s, msgs, i)
        == DispatchAction::Dropped by {
        lemma_stopped_stays_stopped(s, msgs.subrange(0, i));
    }
}

/// Shutdown finality: handling the shutdown request terminates the request
/// loop, and every request enqueued after that — whatever it is and however
/// many follow it — receives no reply: its action is to be dropped, its reply
/// slot never fulfilled.
pub proof fn lemma_shutdown_finality(s: Worker, later: Seq<Message>)
    requires
        s.running,
    ensures
        ({
            let stopped = spec_handle(s, Message::Disconnect).0;
            !stopped.running && forall|i: int|
                0 <= i < later.len() ==> action_at(stopped, later, i) == DispatchAction::Dropped
        }),
{
    let stopped = spec_handle(s, Message::Disconnect).0;
    lemma_stopped_stays_stopped(stopped, later);
}

} // verus!
