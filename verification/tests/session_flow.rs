use ota_ble::commands::OtaGattCommands;
use ota_ble::errors::{OtaError, OtaErrorKind};
use ota_ble::session::{Effect, OtaSession, OtaState};

fn receiving_session(total: u32) -> OtaSession {
    let mut s = OtaSession::new(4096);
    assert_eq!(s.handle_command(OtaGattCommands::StartTransfer), Ok(Effect::PreparePartition));
    assert_eq!(s.handle_total_size(total), Ok(Effect::NoAction));
    s
}

#[test]
fn full_transfer_commits_on_matching_digest() {
    let mut s = receiving_session(1024);
    let digest = vec![0x5au8; 32];
    assert_eq!(s.handle_hash(digest.clone()), Ok(Effect::NoAction));
    let chunk = [0x11u8; 512];
    assert_eq!(s.handle_block(&chunk), Ok(Effect::StoreBlock { offset: 0 }));
    assert_eq!(s.handle_block(&chunk), Ok(Effect::StoreBlock { offset: 512 }));
    assert_eq!(s.request_finalize(), Ok(Effect::ComputeDigest));
    assert_eq!(s.state(), OtaState::Verifying);
    assert_eq!(s.handle_digest(&digest), Ok(Effect::MarkBootable));
    assert_eq!(s.state(), OtaState::Success);
    assert_eq!(s.status(), 3);
}

#[test]
fn early_finalize_is_rejected_and_the_session_keeps_receiving() {
    let mut s = receiving_session(1024);
    let chunk = [0u8; 512];
    assert_eq!(s.handle_block(&chunk), Ok(Effect::StoreBlock { offset: 0 }));
    assert_eq!(s.request_finalize(), Err(OtaError::IncompleteTransfer));
    assert_eq!(s.state(), OtaState::Receiving);
    assert_eq!(OtaError::IncompleteTransfer.kind(), OtaErrorKind::ProtocolViolation);
    // the missing half still completes the transfer
    assert_eq!(s.handle_block(&chunk), Ok(Effect::StoreBlock { offset: 512 }));
    assert_eq!(s.request_finalize(), Ok(Effect::ComputeDigest));
}

#[test]
fn start_while_receiving_is_rejected() {
    let mut s = receiving_session(1024);
    assert_eq!(s.handle_block(&[1, 2, 3]), Ok(Effect::StoreBlock { offset: 0 }));
    assert_eq!(
        s.handle_command(OtaGattCommands::StartTransfer),
        Err(OtaError::TransferInProgress)
    );
    assert_eq!(s.state(), OtaState::Receiving);
    assert_eq!(s.buffer.bytes_written(), 3);
}

#[test]
fn force_start_supersedes_an_active_session() {
    let mut s = receiving_session(1024);
    assert_eq!(s.handle_block(&[1, 2, 3]), Ok(Effect::StoreBlock { offset: 0 }));
    assert_eq!(
        s.handle_command(OtaGattCommands::StartForceTransfer),
        Ok(Effect::PreparePartition)
    );
    assert_eq!(s.state(), OtaState::Receiving);
    assert_eq!(s.buffer.bytes_written(), 0);
    assert_eq!(s.buffer.total_size(), None);
}

#[test]
fn clear_then_start_leaves_no_residue() {
    let mut s = receiving_session(1024);
    assert_eq!(s.handle_hash(vec![9u8; 32]), Ok(Effect::NoAction));
    assert_eq!(s.handle_block(&[1, 2, 3, 4]), Ok(Effect::StoreBlock { offset: 0 }));
    assert_eq!(s.handle_command(OtaGattCommands::ClearTransfer), Ok(Effect::Cleared));
    assert_eq!(s.state(), OtaState::Idle);
    assert_eq!(s.handle_command(OtaGattCommands::StartTransfer), Ok(Effect::PreparePartition));
    assert_eq!(s.buffer.bytes_written(), 0);
    assert!(!s.hasher.has_expected());
    assert_eq!(s.buffer.total_size(), None);
}

#[test]
fn clear_recovers_from_failure_and_success() {
    let mut s = receiving_session(4);
    assert_eq!(s.handle_block(&[0u8; 8]), Err(OtaError::Overflow));
    assert_eq!(s.state(), OtaState::Failure);
    assert_eq!(s.handle_command(OtaGattCommands::ClearTransfer), Ok(Effect::Cleared));
    assert_eq!(s.state(), OtaState::Idle);
    assert_eq!(s.handle_command(OtaGattCommands::StartTransfer), Ok(Effect::PreparePartition));
    assert_eq!(s.state(), OtaState::Receiving);
}

#[test]
fn start_is_refused_from_failure_without_a_clear() {
    let mut s = receiving_session(4);
    assert_eq!(s.handle_block(&[0u8; 8]), Err(OtaError::Overflow));
    assert_eq!(s.state(), OtaState::Failure);
    assert_eq!(
        s.handle_command(OtaGattCommands::StartTransfer),
        Err(OtaError::TransferInProgress)
    );
    assert_eq!(
        s.handle_command(OtaGattCommands::StartForceTransfer),
        Ok(Effect::PreparePartition)
    );
}

#[test]
fn overflow_is_fatal_but_leaves_the_count() {
    let mut s = receiving_session(8);
    assert_eq!(s.handle_block(&[1u8; 4]), Ok(Effect::StoreBlock { offset: 0 }));
    assert_eq!(s.handle_block(&[1u8; 5]), Err(OtaError::Overflow));
    assert_eq!(s.state(), OtaState::Failure);
    assert_eq!(s.buffer.bytes_written(), 4);
    // no block is accepted once the session failed
    assert_eq!(s.handle_block(&[1u8; 1]), Err(OtaError::NoActiveTransfer));
}

#[test]
fn block_before_size_declaration_is_fatal() {
    let mut s = OtaSession::new(4096);
    assert_eq!(s.handle_command(OtaGattCommands::StartTransfer), Ok(Effect::PreparePartition));
    assert_eq!(s.handle_block(&[1, 2]), Err(OtaError::SizeNotDeclared));
    assert_eq!(s.state(), OtaState::Failure);
}

#[test]
fn double_declaration_is_fatal() {
    let mut s = receiving_session(16);
    assert_eq!(s.handle_total_size(16), Err(OtaError::AlreadyDeclared));
    assert_eq!(s.state(), OtaState::Failure);
}

#[test]
fn oversized_declaration_is_fatal() {
    let mut s = OtaSession::new(1024);
    assert_eq!(s.handle_command(OtaGattCommands::StartTransfer), Ok(Effect::PreparePartition));
    assert_eq!(s.handle_total_size(4096), Err(OtaError::TooLarge));
    assert_eq!(s.state(), OtaState::Failure);
}

#[test]
fn transfer_events_need_an_active_session() {
    let mut s = OtaSession::new(1024);
    assert_eq!(s.handle_total_size(16), Err(OtaError::NoActiveTransfer));
    assert_eq!(s.handle_block(&[1]), Err(OtaError::NoActiveTransfer));
    assert_eq!(s.handle_hash(vec![0u8; 32]), Err(OtaError::NoActiveTransfer));
    assert_eq!(s.request_finalize(), Err(OtaError::NoActiveTransfer));
    assert_eq!(s.state(), OtaState::Idle);
}

#[test]
fn mismatching_digest_fails_verification() {
    let mut s = receiving_session(4);
    assert_eq!(s.handle_hash(vec![0xaau8; 32]), Ok(Effect::NoAction));
    assert_eq!(s.handle_block(&[1, 2, 3, 4]), Ok(Effect::StoreBlock { offset: 0 }));
    assert_eq!(s.request_finalize(), Ok(Effect::ComputeDigest));
    assert_eq!(s.handle_digest(&[0xabu8; 32]), Err(OtaError::HashMismatch));
    assert_eq!(s.state(), OtaState::Failure);
    assert_eq!(OtaError::HashMismatch.kind(), OtaErrorKind::IntegrityFailure);
}

/// A deterministic 32-byte digest standing in for the device's hash engine.
fn toy_digest(bytes: &[u8]) -> Vec<u8> {
    let mut state = [0x6bu8; 32];
    for (i, &b) in bytes.iter().enumerate() {
        let j = i % 32;
        state[j] = state[j].wrapping_mul(31).wrapping_add(b).rotate_left(3);
    }
    state.to_vec()
}

#[test]
fn flipping_a_stream_byte_flips_the_outcome() {
    let image: Vec<u8> = (0..64u32).map(|i| i as u8).collect();
    let mut tampered = image.clone();
    tampered[17] ^= 0x80;
    let expected = toy_digest(&image);
    assert_ne!(expected, toy_digest(&tampered), "the stand-in digest must notice the flip");

    for (stream, wanted_state) in
        [(&image, OtaState::Success), (&tampered, OtaState::Failure)]
    {
        let mut s = receiving_session(64);
        assert_eq!(s.handle_hash(expected.clone()), Ok(Effect::NoAction));
        assert_eq!(s.handle_block(stream), Ok(Effect::StoreBlock { offset: 0 }));
        assert_eq!(s.request_finalize(), Ok(Effect::ComputeDigest));
        let computed = toy_digest(stream);
        let r = s.handle_digest(&computed);
        if wanted_state == OtaState::Success {
            assert_eq!(r, Ok(Effect::MarkBootable));
        } else {
            assert_eq!(r, Err(OtaError::HashMismatch));
        }
        assert_eq!(s.state(), wanted_state);
    }
}

#[test]
fn verification_without_a_declared_digest_fails() {
    let mut s = receiving_session(1);
    assert_eq!(s.handle_block(&[7]), Ok(Effect::StoreBlock { offset: 0 }));
    assert_eq!(s.request_finalize(), Ok(Effect::ComputeDigest));
    assert_eq!(s.handle_digest(&[0u8; 32]), Err(OtaError::NoExpectedHash));
    assert_eq!(s.state(), OtaState::Failure);
}

#[test]
fn digest_report_needs_a_verifying_session() {
    let mut s = receiving_session(4);
    assert_eq!(s.handle_digest(&[0u8; 32]), Err(OtaError::NotVerifying));
    assert_eq!(s.state(), OtaState::Receiving);
}

#[test]
fn reset_device_halts_everything() {
    let mut s = receiving_session(1024);
    assert_eq!(s.handle_command(OtaGattCommands::ResetDevice), Ok(Effect::Reboot));
    assert!(s.is_halted());
    assert_eq!(s.handle_command(OtaGattCommands::StartTransfer), Err(OtaError::Halted));
    assert_eq!(s.handle_block(&[1]), Err(OtaError::Halted));
    assert_eq!(s.handle_total_size(4), Err(OtaError::Halted));
    assert_eq!(s.request_finalize(), Err(OtaError::Halted));
    assert_eq!(s.handle_digest(&[0u8; 32]), Err(OtaError::Halted));
}

#[test]
fn storage_failure_fails_the_session() {
    let mut s = receiving_session(1024);
    s.report_storage_failure();
    assert_eq!(s.state(), OtaState::Failure);
    assert_eq!(OtaError::StorageFailure.kind(), OtaErrorKind::StorageFailure);
}

#[test]
fn status_bytes_follow_the_states() {
    let mut s = OtaSession::new(16);
    assert_eq!(s.status(), 0);
    assert_eq!(s.handle_command(OtaGattCommands::StartTransfer), Ok(Effect::PreparePartition));
    assert_eq!(s.status(), 1);
    assert_eq!(s.handle_total_size(1), Ok(Effect::NoAction));
    assert_eq!(s.handle_hash(vec![1u8; 32]), Ok(Effect::NoAction));
    assert_eq!(s.handle_block(&[9]), Ok(Effect::StoreBlock { offset: 0 }));
    assert_eq!(s.request_finalize(), Ok(Effect::ComputeDigest));
    assert_eq!(s.status(), 2);
    assert_eq!(s.handle_digest(&[1u8; 32]), Ok(Effect::MarkBootable));
    assert_eq!(s.status(), 3);
    s.report_storage_failure();
    assert_eq!(s.status(), 4);
}
