//! Error values reported through the status characteristic.

use vstd::prelude::*;

verus! {

/// Everything that can go wrong inside a session. Each variant is reported
/// to the sender; none is silently dropped.
#[derive(Clone, Copy, Debug, PartialEq, Eq, Structural)]
pub enum OtaError {
    /// The command byte does not name any command.
    UnknownCommand,
    /// A write or read arrived on a UUID that is not part of the service.
    UnknownCharacteristic,
    /// Two characteristics of the service were configured with one UUID.
    DuplicateUuid,
    /// A write arrived on a read-only characteristic.
    NotWritable,
    /// A read arrived on a write-only characteristic.
    NotReadable,
    /// A characteristic write carried the wrong number of bytes.
    InvalidLength,
    /// StartTransfer while a transfer is already ongoing.
    TransferInProgress,
    /// A transfer event arrived while no transfer is ongoing.
    NoActiveTransfer,
    /// The total size was declared twice within one session.
    AlreadyDeclared,
    /// The declared total size exceeds the update partition.
    TooLarge,
    /// A file block arrived before the total size was declared.
    SizeNotDeclared,
    /// A file block would push the byte count past the declared total size.
    Overflow,
    /// Completion was signalled before every declared byte arrived.
    IncompleteTransfer,
    /// A digest report arrived while the session was not verifying.
    NotVerifying,
    /// No expected digest was ever supplied.
    NoExpectedHash,
    /// The computed digest differs from the expected digest.
    HashMismatch,
    /// The flash collaborator failed; the partition state is undefined.
    StorageFailure,
    /// A reboot was requested; no further events are processed.
    Halted,
    /// No update partition with a non-zero size exists.
    NoOtaPartitions,
}

/// The recovery families: how each failure is handled.
#[derive(Clone, Copy, Debug, PartialEq, Eq, Structural)]
pub enum OtaErrorKind {
    /// Out-of-order command, overflow, double declaration: the session is
    /// forced to failure and the sender notified.
    ProtocolViolation,
    /// The digest check failed: same recovery, partition left uncommitted.
    IntegrityFailure,
    /// A flash operation failed: fatal to the session, partition undefined.
    StorageFailure,
}

impl OtaError {
    /// The recovery family this error belongs to.
    pub open spec fn spec_kind(self) -> OtaErrorKind {
        match self {
            OtaError::HashMismatch => OtaErrorKind::IntegrityFailure,
            OtaError::StorageFailure => OtaErrorKind::StorageFailure,
            _ => OtaErrorKind::ProtocolViolation,
        }
    }

    /// Sorts this error into its recovery family.
    pub fn kind(self) -> (k: OtaErrorKind)
        ensures
            k == self.spec_kind(),
    {
        match self {
            OtaError::HashMismatch => OtaErrorKind::IntegrityFailure,
            OtaError::StorageFailure => OtaErrorKind::StorageFailure,
            _ => OtaErrorKind::ProtocolViolation,
        }
    }
}

} // verus!
