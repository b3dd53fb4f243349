use ota_ble::characteristic::OtaCharacteristic;
use ota_ble::config::{
    BleParams, GattUuids, COMMAND_UUID, FILE_BLOCK_UUID, FILE_HASH_UUID, FINISHED_UPLOAD_UUID,
    SERVICE_UUID, STATUS_UUID, TOTAL_FILE_SIZE_UUID,
};
use ota_ble::errors::OtaError;
use ota_ble::partition::get_max_ota_size;
use ota_ble::setup::{GattServerEvent, OtaBle, SetupAction, SetupError, SetupPhase};
use ota_ble::wire::{encode_le32, parse_le32};

fn fresh() -> OtaBle {
    OtaBle::new(BleParams::default(), GattUuids::default(), 3)
}

#[test]
fn bringup_walks_to_running() {
    let mut b = fresh();
    let r = b.handle_gatt_event(GattServerEvent::ServiceRegistered { ok: true, app_id: 254 });
    assert_eq!(
        r,
        Ok(SetupAction::CreateService { uuid: SERVICE_UUID, instance_id: 3 })
    );
    assert_eq!(b.phase, SetupPhase::AwaitingService);

    let r = b.handle_gatt_event(GattServerEvent::ServiceCreated {
        ok: true,
        service_uuid: SERVICE_UUID,
        service_handle: 40,
    });
    assert_eq!(r, Ok(SetupAction::AddCharacteristics { service_handle: 40 }));

    for _ in 0..5 {
        let r =
            b.handle_gatt_event(GattServerEvent::CharacteristicAdded { ok: true, service_handle: 40 });
        assert_eq!(r, Ok(SetupAction::NoAction));
    }
    let r =
        b.handle_gatt_event(GattServerEvent::CharacteristicAdded { ok: true, service_handle: 40 });
    assert_eq!(r, Ok(SetupAction::StartService { service_handle: 40 }));
    assert_eq!(b.phase, SetupPhase::Starting);

    let r = b.handle_gatt_event(GattServerEvent::ServiceStarted { ok: true, service_handle: 40 });
    assert_eq!(r, Ok(SetupAction::StartAdvertising));
    assert_eq!(b.phase, SetupPhase::Running);
}

#[test]
fn acknowledgements_for_other_apps_pass_through() {
    let mut b = fresh();
    let r = b.handle_gatt_event(GattServerEvent::ServiceRegistered { ok: true, app_id: 7 });
    assert_eq!(r, Ok(SetupAction::NoAction));
    assert_eq!(b.phase, SetupPhase::AwaitingRegistration);
    let r = b.handle_gatt_event(GattServerEvent::ServiceCreated {
        ok: true,
        service_uuid: 0x1234,
        service_handle: 9,
    });
    assert_eq!(r, Ok(SetupAction::NoAction));
}

#[test]
fn a_refused_registration_fails_the_bringup() {
    let mut b = fresh();
    let r = b.handle_gatt_event(GattServerEvent::ServiceRegistered { ok: false, app_id: 254 });
    assert_eq!(r, Err(SetupError::RegistrationFailed));
    assert_eq!(b.phase, SetupPhase::Failed);
}

#[test]
fn a_refused_characteristic_fails_the_bringup() {
    let mut b = fresh();
    b.handle_gatt_event(GattServerEvent::ServiceRegistered { ok: true, app_id: 254 }).unwrap();
    b.handle_gatt_event(GattServerEvent::ServiceCreated {
        ok: true,
        service_uuid: SERVICE_UUID,
        service_handle: 40,
    })
    .unwrap();
    let r =
        b.handle_gatt_event(GattServerEvent::CharacteristicAdded { ok: false, service_handle: 40 });
    assert_eq!(r, Err(SetupError::CharacteristicFailed));
    assert_eq!(b.phase, SetupPhase::Failed);
}

#[test]
fn out_of_phase_acknowledgements_are_refused() {
    let mut b = fresh();
    let r = b.handle_gatt_event(GattServerEvent::ServiceCreated {
        ok: true,
        service_uuid: SERVICE_UUID,
        service_handle: 40,
    });
    assert_eq!(r, Err(SetupError::UnexpectedEvent));
    assert_eq!(b.phase, SetupPhase::AwaitingRegistration);
}

#[test]
fn advertising_resumes_while_there_is_room() {
    let mut b = fresh();
    assert_eq!(b.handle_gatt_event(GattServerEvent::PeerConnected), Ok(SetupAction::StartAdvertising));
    assert_eq!(b.handle_gatt_event(GattServerEvent::PeerConnected), Ok(SetupAction::StartAdvertising));
    assert_eq!(b.handle_gatt_event(GattServerEvent::PeerConnected), Ok(SetupAction::NoAction));
    assert_eq!(b.connected, 3);
    assert_eq!(b.handle_gatt_event(GattServerEvent::PeerDisconnected), Ok(SetupAction::NoAction));
    assert_eq!(b.connected, 2);
}

#[test]
fn max_ota_size_is_the_largest_partition() {
    assert_eq!(get_max_ota_size(&vec![4096, 8192, 1024]), Ok(8192));
    assert_eq!(get_max_ota_size(&vec![4096]), Ok(4096));
}

#[test]
fn no_usable_partition_is_an_error() {
    assert_eq!(get_max_ota_size(&vec![]), Err(OtaError::NoOtaPartitions));
    assert_eq!(get_max_ota_size(&vec![0, 0]), Err(OtaError::NoOtaPartitions));
}

#[test]
fn default_uuids_match_the_published_set() {
    let u = GattUuids::default();
    assert_eq!(u.service, 0x81ea96fb_1117_4ea4_9df0_d30cd73e0e76);
    assert_eq!(u.file_block, FILE_BLOCK_UUID);
    assert_eq!(u.total_file_size, TOTAL_FILE_SIZE_UUID);
    assert_eq!(u.file_hash, FILE_HASH_UUID);
    assert_eq!(u.status, STATUS_UUID);
    assert_eq!(u.command, COMMAND_UUID);
    assert_eq!(u.finished_upload, FINISHED_UPLOAD_UUID);
    assert!(u.is_distinct());
}

#[test]
fn default_params_match_the_firmware() {
    let p = BleParams::default();
    assert_eq!(p.ota_app_id, 254);
    assert_eq!(p.service_instance_id, 3);
    assert_eq!(p.max_block_size, 512);
}

#[test]
fn random_uuids_carry_the_version_and_variant_bits() {
    let u = GattUuids::random();
    for x in [
        u.service,
        u.file_block,
        u.total_file_size,
        u.file_hash,
        u.status,
        u.command,
        u.finished_upload,
    ] {
        assert_eq!((x >> 76) & 0xf, 4, "version nibble must read 4");
        assert_eq!((x >> 62) & 0x3, 2, "variant bits must read the standard variant");
    }
    // two draws almost surely differ; equal draws would defeat the point
    let v = GattUuids::random();
    assert_ne!(u.service, v.service);
}

#[test]
fn little_endian_round_trip() {
    assert_eq!(encode_le32(0x01020304), vec![0x04, 0x03, 0x02, 0x01]);
    assert_eq!(parse_le32(&[0x04, 0x03, 0x02, 0x01]), 0x01020304);
    assert_eq!(parse_le32(&[0xff, 0xff, 0xff, 0xff]), u32::MAX);
    for n in [0u32, 1, 255, 256, 1024, 0xdead_beef, u32::MAX] {
        assert_eq!(parse_le32(&encode_le32(n)), n);
    }
}

#[test]
fn characteristic_handles_are_recorded() {
    let mut c = OtaCharacteristic::new(COMMAND_UUID);
    assert_eq!(c.uuid, COMMAND_UUID);
    assert!(!c.is_initialized());
    c.set_attribute_handle(42);
    assert!(c.is_initialized());
    assert_eq!(c.attribute_handle, Some(42));
}
