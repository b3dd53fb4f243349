use ota_ble::commands::{DecodeError, OtaGattCommands};

#[test]
fn decode_known_bytes() {
    assert_eq!(OtaGattCommands::decode(1), Ok(OtaGattCommands::StartTransfer));
    assert_eq!(OtaGattCommands::decode(2), Ok(OtaGattCommands::ClearTransfer));
    assert_eq!(OtaGattCommands::decode(3), Ok(OtaGattCommands::ResetDevice));
    assert_eq!(OtaGattCommands::decode(4), Ok(OtaGattCommands::StartForceTransfer));
}

#[test]
fn decode_unknown_bytes() {
    assert_eq!(OtaGattCommands::decode(0), Err(DecodeError::UnknownCommand));
    assert_eq!(OtaGattCommands::decode(5), Err(DecodeError::UnknownCommand));
    assert_eq!(OtaGattCommands::decode(0x7f), Err(DecodeError::UnknownCommand));
    assert_eq!(OtaGattCommands::decode(255), Err(DecodeError::UnknownCommand));
}

#[test]
fn encode_then_decode_round_trips() {
    let all = [
        OtaGattCommands::StartTransfer,
        OtaGattCommands::ClearTransfer,
        OtaGattCommands::ResetDevice,
        OtaGattCommands::StartForceTransfer,
    ];
    for cmd in all {
        assert_eq!(OtaGattCommands::decode(cmd.encode()), Ok(cmd));
    }
}

#[test]
fn encode_values_match_the_wire() {
    assert_eq!(OtaGattCommands::StartTransfer.encode(), 0x01);
    assert_eq!(OtaGattCommands::ClearTransfer.encode(), 0x02);
    assert_eq!(OtaGattCommands::ResetDevice.encode(), 0x03);
    assert_eq!(OtaGattCommands::StartForceTransfer.encode(), 0x04);
}
