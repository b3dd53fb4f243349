use ota_ble::buffer::TransferBuffer;
use ota_ble::errors::OtaError;
use ota_ble::hash::{bytes_eq, HashVerifier};

#[test]
fn remaining_decreases_to_zero_within_declared_size() {
    let mut buf = TransferBuffer::new(4096);
    assert_eq!(buf.declare_total_size(1024), Ok(()));
    assert_eq!(buf.bytes_remaining(), 1024);
    let chunk = [0u8; 512];
    assert_eq!(buf.append(&chunk), Ok(()));
    assert_eq!(buf.bytes_remaining(), 512);
    assert_eq!(buf.append(&chunk), Ok(()));
    assert_eq!(buf.bytes_remaining(), 0);
    assert_eq!(buf.bytes_written(), 1024);
    assert!(buf.is_complete());
}

#[test]
fn oversized_append_is_rejected_without_moving_the_count() {
    let mut buf = TransferBuffer::new(4096);
    assert_eq!(buf.declare_total_size(1024), Ok(()));
    let half = [0u8; 512];
    assert_eq!(buf.append(&half), Ok(()));
    let too_much = [0u8; 600];
    assert_eq!(buf.append(&too_much), Err(OtaError::Overflow));
    assert_eq!(buf.bytes_written(), 512);
    assert_eq!(buf.bytes_remaining(), 512);
    // rejection is idempotent: the same oversized chunk fails the same way
    assert_eq!(buf.append(&too_much), Err(OtaError::Overflow));
    assert_eq!(buf.bytes_written(), 512);
    // a fitting chunk still completes the image
    assert_eq!(buf.append(&half), Ok(()));
    assert!(buf.is_complete());
}

#[test]
fn append_before_declaration_is_rejected() {
    let mut buf = TransferBuffer::new(4096);
    let chunk = [1u8; 4];
    assert_eq!(buf.append(&chunk), Err(OtaError::SizeNotDeclared));
    assert_eq!(buf.bytes_written(), 0);
}

#[test]
fn declaring_twice_is_rejected() {
    let mut buf = TransferBuffer::new(4096);
    assert_eq!(buf.declare_total_size(100), Ok(()));
    assert_eq!(buf.declare_total_size(100), Err(OtaError::AlreadyDeclared));
    assert_eq!(buf.total_size(), Some(100));
}

#[test]
fn declaring_beyond_the_partition_is_rejected() {
    let mut buf = TransferBuffer::new(1024);
    assert_eq!(buf.declare_total_size(2048), Err(OtaError::TooLarge));
    assert_eq!(buf.total_size(), None);
    assert_eq!(buf.declare_total_size(1024), Ok(()));
}

#[test]
fn zero_total_size_accepts_no_bytes() {
    let mut buf = TransferBuffer::new(1024);
    assert_eq!(buf.declare_total_size(0), Ok(()));
    // the declared size must be non-zero before any block is accepted
    assert_eq!(buf.append(&[1u8; 1]), Err(OtaError::SizeNotDeclared));
    assert_eq!(buf.append(&[]), Err(OtaError::SizeNotDeclared));
    assert!(buf.is_complete());
}

#[test]
fn reset_forgets_declaration_and_count() {
    let mut buf = TransferBuffer::new(1024);
    assert_eq!(buf.declare_total_size(8), Ok(()));
    assert_eq!(buf.append(&[1, 2, 3, 4]), Ok(()));
    buf.reset();
    assert_eq!(buf.total_size(), None);
    assert_eq!(buf.bytes_written(), 0);
    assert_eq!(buf.declare_total_size(16), Ok(()));
}

#[test]
fn finalize_succeeds_only_on_the_declared_digest() {
    let mut v = HashVerifier::new();
    v.update(&[1, 2, 3]);
    let digest = vec![0xabu8; 32];
    assert_eq!(v.expect(digest.clone()), Ok(()));
    assert_eq!(v.finalize(&digest), Ok(()));
    // one flipped byte must flip the outcome
    let mut off = digest.clone();
    off[7] ^= 1;
    assert_eq!(v.finalize(&off), Err(OtaError::HashMismatch));
    // a truncated digest never matches
    assert_eq!(v.finalize(&digest[..31]), Err(OtaError::HashMismatch));
}

#[test]
fn finalize_without_declared_digest_fails() {
    let v = HashVerifier::new();
    assert_eq!(v.finalize(&[0u8; 32]), Err(OtaError::NoExpectedHash));
}

#[test]
fn expected_digest_must_have_thirty_two_bytes() {
    let mut v = HashVerifier::new();
    assert_eq!(v.expect(vec![0u8; 31]), Err(OtaError::InvalidLength));
    assert!(!v.has_expected());
    assert_eq!(v.expect(vec![0u8; 32]), Ok(()));
    assert!(v.has_expected());
}

#[test]
fn later_digest_declaration_replaces_the_earlier() {
    let mut v = HashVerifier::new();
    assert_eq!(v.expect(vec![1u8; 32]), Ok(()));
    assert_eq!(v.expect(vec![2u8; 32]), Ok(()));
    assert_eq!(v.finalize(&vec![1u8; 32]), Err(OtaError::HashMismatch));
    assert_eq!(v.finalize(&vec![2u8; 32]), Ok(()));
}

#[test]
fn byte_equality_is_exact() {
    assert!(bytes_eq(&[], &[]));
    assert!(bytes_eq(&[1, 2, 3], &[1, 2, 3]));
    assert!(!bytes_eq(&[1, 2, 3], &[1, 2]));
    assert!(!bytes_eq(&[1, 2, 3], &[1, 2, 4]));
}
