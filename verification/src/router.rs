//! The GATT characteristic router: demultiplexes attribute-level reads and
//! writes onto the session state machine and reports back what the platform
//! owes (a flash write, a digest run, a commit, a notification).

use vstd::prelude::*;
use vstd::slice::slice_to_vec;

use crate::commands::OtaGattCommands;
use crate::config::{BleParams, GattUuids};
use crate::errors::OtaError;
use crate::session::{Effect, OtaSession, SessionView};
use crate::wire::{encode_le32, le32_bytes, le32_value, parse_le32};

verus! {

/// The six characteristics of the OTA service.
#[derive(Clone, Copy, Debug, PartialEq, Eq, Structural)]
pub enum CharKind {
    /// Command byte (write).
    Command,
    /// Sequential firmware bytes (write).
    FileBlock,
    /// Declared image size, little-endian u32 (read, write once per session).
    TotalFileSize,
    /// Expected digest of the whole image (read/write).
    FileHash,
    /// Session status byte (read + notify).
    Status,
    /// Completion signal and final size echo (read + notify).
    FinishedUpload,
}

/// Which characteristic, if any, a 128-bit attribute identity names.
pub open spec fn spec_classify(u: GattUuids, uuid: u128) -> Option<CharKind> {
    if uuid == u.command {
        Some(CharKind::Command)
    } else if uuid == u.file_block {
        Some(CharKind::FileBlock)
    } else if uuid == u.total_file_size {
        Some(CharKind::TotalFileSize)
    } else if uuid == u.file_hash {
        Some(CharKind::FileHash)
    } else if uuid == u.status {
        Some(CharKind::Status)
    } else if uuid == u.finished_upload {
        Some(CharKind::FinishedUpload)
    } else {
        None
    }
}

/// The status notification owed after an event: the new status byte when
/// the event moved the session to another state, nothing otherwise.
pub open spec fn spec_status_change(pre: SessionView, post: SessionView) -> Option<u8> {
    if post.state != pre.state {
        Some(post.state.spec_status_byte())
    } else {
        None
    }
}

/// The router's answer to a characteristic write or a platform report.
pub struct Response {
    /// The effect the platform owes, or why the event was rejected.
    pub result: Result<Effect, OtaError>,
    /// The status notification owed, when the session changed state.
    pub status_change: Option<u8>,
}

/// The router's answer to a characteristic read.
pub struct ReadResponse {
    /// The bytes the characteristic shows, when it is readable.
    pub value: Option<Vec<u8>>,
    /// The effect the platform owes, or why the read was rejected.
    pub result: Result<Effect, OtaError>,
    /// The status notification owed, when the session changed state.
    pub status_change: Option<u8>,
}

/// How one characteristic is registered with the GATT stack.
#[derive(Clone, Copy, Debug, PartialEq, Eq, Structural)]
pub struct CharacteristicConfig {
    /// The characteristic's 128-bit identity.
    pub uuid: u128,
    /// Whether peers may read it.
    pub readable: bool,
    /// Whether peers may write it.
    pub writable: bool,
    /// Whether the service pushes notifications through it.
    pub notifiable: bool,
    /// The longest value it carries.
    pub max_len: usize,
}

/// The OTA GATT service: the fixed characteristic set around one session.
/// The platform's GATT stack delivers each attribute event here; the
/// responses say what to write, hash, commit or notify.
pub struct OtaGattService {
    /// The service and characteristic identities.
    pub uuids: GattUuids,
    /// The BLE-level parameters.
    pub params: BleParams,
    /// The single live session.
    pub session: OtaSession,
}

impl OtaGattService {
    /// The session invariant holds and no two characteristics collide.
    pub open spec fn wf(self) -> bool {
        &&& self.session.wf()
        &&& self.uuids.distinct()
    }

    /// Sets up the service around a fresh session for an update partition
    /// of `max_ota_size` bytes. Refused when two characteristics share a
    /// UUID: such a service could not attribute events.
    pub fn new(uuids: GattUuids, params: BleParams, max_ota_size: u32) -> (r: Result<
        OtaGattService,
        OtaError,
    >)
        ensures
            match r {
                Ok(s) => {
                    &&& uuids.distinct()
                    &&& s.wf()
                    &&& s.uuids == uuids
                    &&& s.params == params
                    &&& s.session@ == SessionView::fresh(max_ota_size as nat)
                },
                Err(e) => !uuids.distinct() && e == OtaError::DuplicateUuid,
            },
    {
        if !uuids.is_distinct() {
            return Err(OtaError::DuplicateUuid);
        }
        Ok(OtaGattService { uuids, params, session: OtaSession::new(max_ota_size) })
    }

    /// The status characteristic's current value.
    pub fn status(&self) -> (b: u8)
        ensures
            b == self.session@.state.spec_status_byte(),
    {
        self.session.status()
    }

    /// Which characteristic an attribute identity names.
    pub fn classify(&self, uuid: u128) -> (k: Option<CharKind>)
        ensures
            k == spec_classify(self.uuids, uuid),
    {
        if uuid == self.uuids.command {
            Some(CharKind::Command)
        } else if uuid == self.uuids.file_block {
            Some(CharKind::FileBlock)
        } else if uuid == self.uuids.total_file_size {
            Some(CharKind::TotalFileSize)
        } else if uuid == self.uuids.file_hash {
            Some(CharKind::FileHash)
        } else if uuid == self.uuids.status {
            Some(CharKind::Status)
        } else if uuid == self.uuids.finished_upload {
            Some(CharKind::FinishedUpload)
        } else {
            None
        }
    }

    /// The characteristic set to register with the GATT stack, in the
    /// access shape each characteristic has: the command byte and the file
    /// blocks write-only, size and hash writable and readable back, status
    /// and completion read-only with notifications.
    pub fn configs(&self) -> (v: Vec<CharacteristicConfig>)
        ensures
            v@ =~= seq![
                (CharacteristicConfig {
                    uuid: self.uuids.command,
                    readable: false,
                    writable: true,
                    notifiable: false,
                    max_len: 1,
                }),
                (CharacteristicConfig {
                    uuid: self.uuids.file_block,
                    readable: false,
                    writable: true,
                    notifiable: false,
                    max_len: self.params.max_block_size,
                }),
                (CharacteristicConfig {
                    uuid: self.uuids.total_file_size,
                    readable: true,
                    writable: true,
                    notifiable: false,
                    max_len: 4,
                }),
                (CharacteristicConfig {
                    uuid: self.uuids.file_hash,
                    readable: true,
                    writable: true,
                    notifiable: false,
                    max_len: crate::hash::DIGEST_LEN,
                }),
                (CharacteristicConfig {
                    uuid: self.uuids.status,
                    readable: true,
                    writable: false,
                    notifiable: true,
                    max_len: 1,
                }),
                (CharacteristicConfig {
                    uuid: self.uuids.finished_upload,
                    readable: true,
                    writable: false,
                    notifiable: true,
                    max_len: 8,
                }),
            ],
    {
        let mut v: Vec<CharacteristicConfig> = Vec::new();
        v.push(CharacteristicConfig {
            uuid: self.uuids.command,
            readable: false,
            writable: true,
            notifiable: false,
            max_len: 1,
        });
        v.push(CharacteristicConfig {
            uuid: self.uuids.file_block,
            readable: false,
            writable: true,
            notifiable: false,
            max_len: self.params.max_block_size,
        });
        v.push(CharacteristicConfig {
            uuid: self.uuids.total_file_size,
            readable: true,
            writable: true,
            notifiable: false,
            max_len: 4,
        });
        v.push(CharacteristicConfig {
            uuid: self.uuids.file_hash,
            readable: true,
            writable: true,
            notifiable: false,
            max_len: crate::hash::DIGEST_LEN,
        });
        v.push(CharacteristicConfig {
            uuid: self.uuids.status,
            readable: true,
            writable: false,
            notifiable: true,
            max_len: 1,
        });
        v.push(CharacteristicConfig {
            uuid: self.uuids.finished_upload,
            readable: true,
            writable: false,
            notifiable: true,
            max_len: 8,
        });
        v
    }

    /// Handles an attribute write delivered by the GATT stack.
    ///
    /// The command, file-block, total-size and file-hash characteristics
    /// accept writes; their bytes are validated here and handed to the
    /// session. A malformed write (wrong length, unknown command byte) is
    /// a protocol violation: fatal while receiving. Writes to read-only or
    /// unknown characteristics are rejected without touching the session.
    pub fn on_attribute_write(&mut self, uuid: u128, data: &[u8]) -> (r: Response)
        requires
            old(self).wf(),
        ensures
            final(self).wf(),
            final(self).uuids == old(self).uuids,
            final(self).params == old(self).params,
            r.status_change == spec_status_change(old(self).session@, final(self).session@),
            match spec_classify(old(self).uuids, uuid) {
                Some(CharKind::Command) => {
                    if data@.len() != 1 {
                        &&& final(self).session@ == old(self).session@.after_violation()
                        &&& r.result == Err::<Effect, OtaError>(OtaError::InvalidLength)
                    } else {
                        match OtaGattCommands::spec_decode(data@[0]) {
                            Ok(cmd) => SessionView::step_command(
                                old(self).session@,
                                cmd,
                                final(self).session@,
                                r.result,
                            ),
                            Err(_) => {
                                &&& final(self).session@ == old(self).session@.after_violation()
                                &&& r.result == Err::<Effect, OtaError>(OtaError::UnknownCommand)
                            },
                        }
                    }
                },
                Some(CharKind::FileBlock) => {
                    if data@.len() > old(self).params.max_block_size {
                        &&& final(self).session@ == old(self).session@.after_violation()
                        &&& r.result == Err::<Effect, OtaError>(OtaError::InvalidLength)
                    } else {
                        SessionView::step_block(
                            old(self).session@,
                            data@,
                            final(self).session@,
                            r.result,
                        )
                    }
                },
                Some(CharKind::TotalFileSize) => {
                    if data@.len() != 4 {
                        &&& final(self).session@ == old(self).session@.after_violation()
                        &&& r.result == Err::<Effect, OtaError>(OtaError::InvalidLength)
                    } else {
                        SessionView::step_total_size(
                            old(self).session@,
                            le32_value(data@) as u32,
                            final(self).session@,
                            r.result,
                        )
                    }
                },
                Some(CharKind::FileHash) => SessionView::step_hash(
                    old(self).session@,
                    data@,
                    final(self).session@,
                    r.result,
                ),
                Some(CharKind::Status) => {
                    &&& final(self).session@ == old(self).session@
                    &&& r.result == Err::<Effect, OtaError>(OtaError::NotWritable)
                },
                Some(CharKind::FinishedUpload) => {
                    &&& final(self).session@ == old(self).session@
                    &&& r.result == Err::<Effect, OtaError>(OtaError::NotWritable)
                },
                None => {
                    &&& final(self).session@ == old(self).session@
                    &&& r.result == Err::<Effect, OtaError>(OtaError::UnknownCharacteristic)
                },
            },
    {
        let before = self.session.status();
        let result: Result<Effect, OtaError> = match self.classify(uuid) {
            Some(CharKind::Command) => {
                if data.len() != 1 {
                    self.session.report_protocol_violation();
                    Err(OtaError::InvalidLength)
                } else {
                    match OtaGattCommands::decode(data[0]) {
                        Ok(cmd) => self.session.handle_command(cmd),
                        Err(_) => {
                            self.session.report_protocol_violation();
                            Err(OtaError::UnknownCommand)
                        },
                    }
                }
            },
            Some(CharKind::FileBlock) => {
                if data.len() > self.params.max_block_size {
                    self.session.report_protocol_violation();
                    Err(OtaError::InvalidLength)
                } else {
                    self.session.handle_block(data)
                }
            },
            Some(CharKind::TotalFileSize) => {
                if data.len() != 4 {
                    self.session.report_protocol_violation();
                    Err(OtaError::InvalidLength)
                } else {
                    let n = parse_le32(data);
                    self.session.handle_total_size(n)
                }
            },
            Some(CharKind::FileHash) => {
                let digest = slice_to_vec(data);
                self.session.handle_hash(digest)
            },
            Some(CharKind::Status) => Err(OtaError::NotWritable),
            Some(CharKind::FinishedUpload) => Err(OtaError::NotWritable),
            None => Err(OtaError::UnknownCharacteristic),
        };
        let after = self.session.status();
        Response {
            result,
            status_change: if after != before {
                Some(after)
            } else {
                None
            },
        }
    }

    /// Handles an attribute read delivered by the GATT stack.
    ///
    /// Status, total size and expected hash read back what the session
    /// holds. Reading the finished-upload characteristic is the completion
    /// signal: accepted only with every declared byte on hand, it moves
    /// the session to verifying, echoes the byte count, and asks the
    /// platform for the digest.
    pub fn on_attribute_read(&mut self, uuid: u128) -> (r: ReadResponse)
        requires
            old(self).wf(),
        ensures
            final(self).wf(),
            final(self).uuids == old(self).uuids,
            final(self).params == old(self).params,
            r.status_change == spec_status_change(old(self).session@, final(self).session@),
            match spec_classify(old(self).uuids, uuid) {
                Some(CharKind::Status) => {
                    &&& final(self).session@ == old(self).session@
                    &&& r.result == Ok::<Effect, OtaError>(Effect::NoAction)
                    &&& r.value is Some
                    &&& r.value->0@ == seq![old(self).session@.state.spec_status_byte()]
                },
                Some(CharKind::TotalFileSize) => {
                    &&& final(self).session@ == old(self).session@
                    &&& r.result == Ok::<Effect, OtaError>(Effect::NoAction)
                    &&& r.value is Some
                    &&& r.value->0@ == le32_bytes(
                        match old(self).session@.buffer.total {
                            Some(t) => t as u32,
                            None => 0,
                        },
                    )
                },
                Some(CharKind::FileHash) => {
                    &&& final(self).session@ == old(self).session@
                    &&& r.result == Ok::<Effect, OtaError>(Effect::NoAction)
                    &&& r.value is Some
                    &&& r.value->0@ == (match old(self).session@.hash.expected {
                        Some(d) => d,
                        None => Seq::<u8>::empty(),
                    })
                },
                Some(CharKind::FinishedUpload) => {
                    &&& SessionView::step_finalize(
                        old(self).session@,
                        final(self).session@,
                        r.result,
                    )
                    &&& r.result is Ok ==> r.value is Some && r.value->0@ == le32_bytes(
                        old(self).session@.buffer.image.len() as u32,
                    )
                    &&& r.result is Err ==> r.value is None
                },
                Some(CharKind::Command) => {
                    &&& final(self).session@ == old(self).session@
                    &&& r.result == Err::<Effect, OtaError>(OtaError::NotReadable)
                    &&& r.value is None
                },
                Some(CharKind::FileBlock) => {
                    &&& final(self).session@ == old(self).session@
                    &&& r.result == Err::<Effect, OtaError>(OtaError::NotReadable)
                    &&& r.value is None
                },
                None => {
                    &&& final(self).session@ == old(self).session@
                    &&& r.result == Err::<Effect, OtaError>(OtaError::UnknownCharacteristic)
                    &&& r.value is None
                },
            },
    {
        let before = self.session.status();
        let (result, value): (Result<Effect, OtaError>, Option<Vec<u8>>) = match self.classify(
            uuid,
        ) {
            Some(CharKind::Status) => {
                let b = self.session.status();
                let mut v: Vec<u8> = Vec::new();
                v.push(b);
                proof {
                    assert(v@ =~= seq![self.session@.state.spec_status_byte()]);
                }
                (Ok(Effect::NoAction), Some(v))
            },
            Some(CharKind::TotalFileSize) => {
                let n = match self.session.buffer.total_size() {
                    Some(t) => t,
                    None => 0,
                };
                (Ok(Effect::NoAction), Some(encode_le32(n)))
            },
            Some(CharKind::FileHash) => {
                let v = match &self.session.hasher.expected {
                    Some(d) => slice_to_vec(d.as_slice()),
                    None => Vec::new(),
                };
                (Ok(Effect::NoAction), Some(v))
            },
            Some(CharKind::FinishedUpload) => {
                let written = self.session.buffer.bytes_written();
                match self.session.request_finalize() {
                    Ok(effect) => (Ok(effect), Some(encode_le32(written))),
                    Err(e) => (Err(e), None),
                }
            },
            Some(CharKind::Command) => (Err(OtaError::NotReadable), None),
            Some(CharKind::FileBlock) => (Err(OtaError::NotReadable), None),
            None => (Err(OtaError::UnknownCharacteristic), None),
        };
        let after = self.session.status();
        ReadResponse {
            value,
            result,
            status_change: if after != before {
                Some(after)
            } else {
                None
            },
        }
    }

    /// Handles the digest the platform hasher computed over the fed
    /// stream; see [`SessionView::step_digest`]. On success the platform
    /// owes the commit: mark the partition bootable, then notify.
    pub fn on_digest_reported(&mut self, computed: &[u8]) -> (r: Response)
        requires
            old(self).wf(),
        ensures
            final(self).wf(),
            final(self).uuids == old(self).uuids,
            final(self).params == old(self).params,
            r.status_change == spec_status_change(old(self).session@, final(self).session@),
            SessionView::step_digest(old(self).session@, computed@, final(self).session@, r.result),
    {
        let before = self.session.status();
        let result = self.session.handle_digest(computed);
        let after = self.session.status();
        Response {
            result,
            status_change: if after != before {
                Some(after)
            } else {
                None
            },
        }
    }

    /// Records that a flash operation failed: the session fails and the
    /// sender is notified.
    pub fn on_storage_failure(&mut self) -> (r: Response)
        requires
            old(self).wf(),
        ensures
            final(self).wf(),
            final(self).uuids == old(self).uuids,
            final(self).params == old(self).params,
            r.status_change == spec_status_change(old(self).session@, final(self).session@),
            final(self).session@ == old(self).session@.with_state(
                crate::session::OtaState::Failure,
            ),
            r.result == Err::<Effect, OtaError>(OtaError::StorageFailure),
    {
        let before = self.session.status();
        self.session.report_storage_failure();
        let after = self.session.status();
        Response {
            result: Err(OtaError::StorageFailure),
            status_change: if after != before {
                Some(after)
            } else {
                None
            },
        }
    }
}

} // verus!
