//! Decoding of the single control byte written to the command characteristic.

use vstd::prelude::*;

verus! {

/// An operation requested by the sender through the command characteristic.
#[derive(Clone, Copy, Debug, PartialEq, Eq, Structural)]
pub enum OtaGattCommands {
    /// Starts a new file transfer; rejected while a transfer is ongoing.
    StartTransfer,
    /// Discards the ongoing transfer and returns the session to idle.
    ClearTransfer,
    /// Requests a device reboot; no further commands are processed.
    ResetDevice,
    /// ClearTransfer and StartTransfer in one command: supersedes any
    /// ongoing transfer.
    StartForceTransfer,
}

/// Why a command byte could not be decoded.
#[derive(Clone, Copy, Debug, PartialEq, Eq, Structural)]
pub enum DecodeError {
    /// The byte does not name any command.
    UnknownCommand,
}

impl OtaGattCommands {
    /// The wire value of this command.
    pub open spec fn spec_code(self) -> u8 {
        match self {
            OtaGattCommands::StartTransfer => 1,
            OtaGattCommands::ClearTransfer => 2,
            OtaGattCommands::ResetDevice => 3,
            OtaGattCommands::StartForceTransfer => 4,
        }
    }

    /// What `decode` returns for a given byte.
    pub open spec fn spec_decode(byte: u8) -> Result<OtaGattCommands, DecodeError> {
        if byte == 1 {
            Ok(OtaGattCommands::StartTransfer)
        } else if byte == 2 {
            Ok(OtaGattCommands::ClearTransfer)
        } else if byte == 3 {
            Ok(OtaGattCommands::ResetDevice)
        } else if byte == 4 {
            Ok(OtaGattCommands::StartForceTransfer)
        } else {
            Err(DecodeError::UnknownCommand)
        }
    }

    /// Encodes this command as its wire byte.
    pub fn encode(self) -> (byte: u8)
        ensures
            byte == self.spec_code(),
    {
        match self {
            OtaGattCommands::StartTransfer => 1,
            OtaGattCommands::ClearTransfer => 2,
            OtaGattCommands::ResetDevice => 3,
            OtaGattCommands::StartForceTransfer => 4,
        }
    }

    /// Parses the byte written to the command characteristic. Pure: every
    /// byte outside the known range is rejected, with no side effects.
    pub fn decode(byte: u8) -> (r: Result<OtaGattCommands, DecodeError>)
        ensures
            r == Self::spec_decode(byte),
    {
        match byte {
            1 => Ok(OtaGattCommands::StartTransfer),
            2 => Ok(OtaGattCommands::ClearTransfer),
            3 => Ok(OtaGattCommands::ResetDevice),
            4 => Ok(OtaGattCommands::StartForceTransfer),
            _ => Err(DecodeError::UnknownCommand),
        }
    }
}

/// Decoding inverts encoding: every command comes back from its own wire
/// byte, so distinct commands have distinct bytes.
pub proof fn lemma_decode_encode(cmd: OtaGattCommands)
    ensures
        OtaGattCommands::spec_decode(cmd.spec_code()) == Ok::<OtaGattCommands, DecodeError>(cmd),
{
}

} // verus!
