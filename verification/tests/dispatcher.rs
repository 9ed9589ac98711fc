use volcano_bridge::bluetooth_service::worker::{
    classify_characteristic, is_relevant_service, CharSlot, CharacteristicSetBuilder,
    ConnectRetry, DispatchAction, Route, Worker, CONNECT_RETRIES, CURR_TEMP_CHAR_UUID,
    FIRMWARE_CHAR_UUID, IS_HEATORAIR_ENABLED_CHAR_UUID, MODEL_CHAR_UUID, SERIAL_CHAR_UUID,
    SERVICE1_UUID, SERVICE2_UUID, START_AIR_CHAR_UUID, START_HEAT_CHAR_UUID, STOP_AIR_CHAR_UUID,
    STOP_HEAT_CHAR_UUID, TARG_TEMP_CHAR_UUID,
};
use volcano_bridge::bluetooth_service::{name_matches_volcano, Message};
use volcano_bridge::utils::{HeatingCoolingState, Temperature};
use volcano_bridge::volcano_factory::should_forward_temp_write;

#[test]
fn test_classify_characteristics() {
    assert_eq!(classify_characteristic(FIRMWARE_CHAR_UUID), Some(CharSlot::Firmware));
    assert_eq!(classify_characteristic(MODEL_CHAR_UUID), Some(CharSlot::Model));
    assert_eq!(classify_characteristic(SERIAL_CHAR_UUID), Some(CharSlot::Serial));
    assert_eq!(classify_characteristic(CURR_TEMP_CHAR_UUID), Some(CharSlot::CurrTemp));
    assert_eq!(classify_characteristic(TARG_TEMP_CHAR_UUID), Some(CharSlot::TargTemp));
    assert_eq!(
        classify_characteristic(IS_HEATORAIR_ENABLED_CHAR_UUID),
        Some(CharSlot::HeatOrAirEnabled)
    );
    assert_eq!(classify_characteristic(START_HEAT_CHAR_UUID), Some(CharSlot::StartHeat));
    assert_eq!(classify_characteristic(STOP_HEAT_CHAR_UUID), Some(CharSlot::StopHeat));
    assert_eq!(classify_characteristic(START_AIR_CHAR_UUID), Some(CharSlot::StartAir));
    assert_eq!(classify_characteristic(STOP_AIR_CHAR_UUID), Some(CharSlot::StopAir));
    assert_eq!(classify_characteristic(SERVICE1_UUID), None);
    assert_eq!(classify_characteristic(0), None);
}

#[test]
fn test_relevant_services() {
    assert!(is_relevant_service(SERVICE1_UUID));
    assert!(is_relevant_service(SERVICE2_UUID));
    assert!(!is_relevant_service(FIRMWARE_CHAR_UUID));
    assert!(!is_relevant_service(0));
}

fn full_builder() -> CharacteristicSetBuilder {
    let mut b = CharacteristicSetBuilder::new();
    b.record(CharSlot::Firmware, 0);
    b.record(CharSlot::Model, 1);
    b.record(CharSlot::Serial, 2);
    b.record(CharSlot::CurrTemp, 3);
    b.record(CharSlot::TargTemp, 4);
    b.record(CharSlot::HeatOrAirEnabled, 5);
    b.record(CharSlot::StartHeat, 6);
    b.record(CharSlot::StopHeat, 7);
    b.record(CharSlot::StartAir, 8);
    b.record(CharSlot::StopAir, 9);
    b
}

#[test]
fn test_builder_complete() {
    let set = full_builder().build().expect("all ten slots were recorded");
    assert_eq!(set.firmware, 0);
    assert_eq!(set.model, 1);
    assert_eq!(set.serial, 2);
    assert_eq!(set.curr_temp, 3);
    assert_eq!(set.targ_temp, 4);
    assert_eq!(set.heat_or_air_enabled, 5);
    assert_eq!(set.start_heat, 6);
    assert_eq!(set.stop_heat, 7);
    assert_eq!(set.start_air, 8);
    assert_eq!(set.stop_air, 9);
}

#[test]
fn test_builder_missing_is_named() {
    let empty = CharacteristicSetBuilder::new();
    assert_eq!(empty.build(), Err(CharSlot::Firmware));
    let mut b = full_builder();
    b.stop_air = None;
    assert_eq!(b.build(), Err(CharSlot::StopAir));
    assert_eq!(CharacteristicSetBuilder::slot_name(CharSlot::StopAir), "stop air");
    assert_eq!(CharacteristicSetBuilder::slot_name(CharSlot::Firmware), "firmware");
}

#[test]
fn test_builder_later_discovery_wins() {
    let mut b = full_builder();
    b.record(CharSlot::TargTemp, 42);
    let set = b.build().expect("still complete");
    assert_eq!(set.targ_temp, 42);
}

#[test]
fn test_retry_budget() {
    let mut retry = ConnectRetry::new(CONNECT_RETRIES);
    // two retries: the third consecutive failure is fatal
    assert!(retry.should_retry_after_failure());
    assert!(retry.should_retry_after_failure());
    assert!(!retry.should_retry_after_failure());
    assert!(!retry.should_retry_after_failure());
    assert_eq!(retry.retries_left, 0);
}

#[test]
fn test_route_messages() {
    assert_eq!(Worker::route_message(&Message::GetCurrTemp), Some(Route::CurrTemp));
    assert_eq!(Worker::route_message(&Message::GetTargTemp), Some(Route::TargTemp));
    assert_eq!(
        Worker::route_message(&Message::SetTargTemp { temp: Temperature { hundredths: 2050 } }),
        Some(Route::TargTemp)
    );
    assert_eq!(Worker::route_message(&Message::GetHeatAirState), Some(Route::HeatAir));
    assert_eq!(
        Worker::route_message(&Message::SetHeatAirState { state: HeatingCoolingState::Cooling }),
        Some(Route::HeatAir)
    );
    assert_eq!(Worker::route_message(&Message::Disconnect), None);
}

#[test]
fn test_shutdown_finality() {
    let mut w = Worker::new();
    assert_eq!(
        w.handle_message(&Message::GetCurrTemp),
        DispatchAction::Forward { route: Route::CurrTemp }
    );
    assert_eq!(w.handle_message(&Message::Disconnect), DispatchAction::DisconnectAndStop);
    assert!(!w.running);
    // anything enqueued after shutdown is never answered
    assert_eq!(w.handle_message(&Message::GetTargTemp), DispatchAction::Dropped);
    assert_eq!(w.handle_message(&Message::Disconnect), DispatchAction::Dropped);
}

#[test]
fn test_dispatch_run_loop_order() {
    let mut w = Worker::new();
    let msgs = vec![
        Message::GetCurrTemp,
        Message::SetHeatAirState { state: HeatingCoolingState::Off },
        Message::Disconnect,
        Message::GetCurrTemp,
        Message::SetTargTemp { temp: Temperature { hundredths: 0 } },
    ];
    let actions = w.run_loop(&msgs);
    assert_eq!(
        actions,
        vec![
            DispatchAction::Forward { route: Route::CurrTemp },
            DispatchAction::Forward { route: Route::HeatAir },
            DispatchAction::DisconnectAndStop,
            DispatchAction::Dropped,
            DispatchAction::Dropped,
        ]
    );
}

#[test]
fn test_name_matches_volcano() {
    assert!(name_matches_volcano(&b"VOLCANO".to_vec()));
    assert!(name_matches_volcano(&b"STORZ&BICKEL VOLCANO HYBRID".to_vec()));
    assert!(!name_matches_volcano(&b"volcano".to_vec()));
    assert!(!name_matches_volcano(&b"VOLCAN".to_vec()));
    assert!(!name_matches_volcano(&b"".to_vec()));
    assert!(!name_matches_volcano(&b"VOL CANO".to_vec()));
}

#[test]
fn test_should_forward_temp_write() {
    let device = Temperature { hundredths: 2050 };
    // the device still shows the accessory's old value: forward the write
    assert!(should_forward_temp_write(device, 19272));
    // the device moved on its own: suppress the echo write
    assert!(!should_forward_temp_write(device, 19273));
}
