//! Fixed configuration: the service and characteristic UUIDs and the BLE
//! parameters. Both are chosen once, before the service starts, and never
//! mutated afterwards.

use vstd::prelude::*;

verus! {

/// Default 128-bit UUID of the OTA service.
pub const SERVICE_UUID: u128 = 0x81ea96fb_1117_4ea4_9df0_d30cd73e0e76;

/// Default UUID of the file-block characteristic.
pub const FILE_BLOCK_UUID: u128 = 0x075e8648_5b20_42c9_a492_b0ce7548be7c;

/// Default UUID of the total-file-size characteristic.
pub const TOTAL_FILE_SIZE_UUID: u128 = 0x92e8d217_f306_418e_b75b_894b288b6664;

/// Default UUID of the file-hash characteristic.
pub const FILE_HASH_UUID: u128 = 0x923930e3_686a_409e_a1e0_c7bbd8bb3d50;

/// Default UUID of the status characteristic.
pub const STATUS_UUID: u128 = 0xe4ccad22_e983_42a9_9c95_7f4909ff885f;

/// Default UUID of the command characteristic.
pub const COMMAND_UUID: u128 = 0x92fa0fe8_35ff_442f_a00c_010ebd91ef6a;

/// Default UUID of the finished-upload characteristic.
pub const FINISHED_UPLOAD_UUID: u128 = 0xe6b7ae4f_d7ff_43f6_a378_86cf740040db;

/// Identifies the service and its six characteristics. Fixed for the
/// process lifetime.
#[derive(Clone, Copy, Debug, PartialEq, Eq, Structural)]
pub struct GattUuids {
    /// The primary service.
    pub service: u128,
    /// Sequential firmware bytes (write).
    pub file_block: u128,
    /// Declared image size, little-endian u32 (read/write once per session).
    pub total_file_size: u128,
    /// Expected digest of the whole image (read/write).
    pub file_hash: u128,
    /// Session status byte (read + notify).
    pub status: u128,
    /// Command byte (write).
    pub command: u128,
    /// Completion signal and final size echo (read + notify).
    pub finished_upload: u128,
}

/// Whether a 128-bit value carries the random-UUID shape: the version
/// nibble reads 4 and the variant bits read the standard variant.
pub open spec fn is_random_uuid(u: u128) -> bool {
    &&& (u >> 76) & 0xf == 4
    &&& (u >> 62) & 0x3 == 2
}

/// Relies on `uuid::Uuid::new_v4` (read out through `as_u128`): a random
/// UUID whose version nibble is forced to 4 and whose variant bits are
/// forced to the standard variant; the remaining 122 bits are random.
#[verifier::external_body]
fn random_uuid128() -> (r: u128)
    ensures
        is_random_uuid(r),
{
    uuid::Uuid::new_v4().as_u128()
}

impl GattUuids {
    /// No two characteristics (nor the service) share a UUID, so every
    /// attribute event is attributed to exactly one of them.
    pub open spec fn distinct(self) -> bool {
        &&& self.service != self.file_block
        &&& self.service != self.total_file_size
        &&& self.service != self.file_hash
        &&& self.service != self.status
        &&& self.service != self.command
        &&& self.service != self.finished_upload
        &&& self.file_block != self.total_file_size
        &&& self.file_block != self.file_hash
        &&& self.file_block != self.status
        &&& self.file_block != self.command
        &&& self.file_block != self.finished_upload
        &&& self.total_file_size != self.file_hash
        &&& self.total_file_size != self.status
        &&& self.total_file_size != self.command
        &&& self.total_file_size != self.finished_upload
        &&& self.file_hash != self.status
        &&& self.file_hash != self.command
        &&& self.file_hash != self.finished_upload
        &&& self.status != self.command
        &&& self.status != self.finished_upload
        &&& self.command != self.finished_upload
    }

    /// Checks that no two identities collide.
    pub fn is_distinct(&self) -> (r: bool)
        ensures
            r == self.distinct(),
    {
        self.service != self.file_block && self.service != self.total_file_size && self.service
            != self.file_hash && self.service != self.status && self.service != self.command
            && self.service != self.finished_upload && self.file_block != self.total_file_size
            && self.file_block != self.file_hash && self.file_block != self.status
            && self.file_block != self.command && self.file_block != self.finished_upload
            && self.total_file_size != self.file_hash && self.total_file_size != self.status
            && self.total_file_size != self.command && self.total_file_size != self.finished_upload
            && self.file_hash != self.status && self.file_hash != self.command && self.file_hash
            != self.finished_upload && self.status != self.command && self.status
            != self.finished_upload && self.command != self.finished_upload
    }

    /// A fresh set of random identities, for deployments that do not want
    /// the published defaults. Randomness cannot promise the seven values
    /// distinct: check with [`GattUuids::is_distinct`] before use.
    pub fn random() -> (u: GattUuids)
        ensures
            is_random_uuid(u.service),
            is_random_uuid(u.file_block),
            is_random_uuid(u.total_file_size),
            is_random_uuid(u.file_hash),
            is_random_uuid(u.status),
            is_random_uuid(u.command),
            is_random_uuid(u.finished_upload),
    {
        GattUuids {
            service: random_uuid128(),
            file_block: random_uuid128(),
            total_file_size: random_uuid128(),
            file_hash: random_uuid128(),
            status: random_uuid128(),
            command: random_uuid128(),
            finished_upload: random_uuid128(),
        }
    }
}

impl Default for GattUuids {
    /// The published identity set.
    fn default() -> (u: GattUuids)
        ensures
            u.service == SERVICE_UUID,
            u.file_block == FILE_BLOCK_UUID,
            u.total_file_size == TOTAL_FILE_SIZE_UUID,
            u.file_hash == FILE_HASH_UUID,
            u.status == STATUS_UUID,
            u.command == COMMAND_UUID,
            u.finished_upload == FINISHED_UPLOAD_UUID,
            u.distinct(),
    {
        GattUuids {
            service: SERVICE_UUID,
            file_block: FILE_BLOCK_UUID,
            total_file_size: TOTAL_FILE_SIZE_UUID,
            file_hash: FILE_HASH_UUID,
            status: STATUS_UUID,
            command: COMMAND_UUID,
            finished_upload: FINISHED_UPLOAD_UUID,
        }
    }
}

/// BLE-level parameters of the OTA application.
#[derive(Clone, Copy, Debug, PartialEq, Eq, Structural)]
pub struct BleParams {
    /// The GATT application identity the service registers under.
    pub ota_app_id: u16,
    /// The instance identity of the service within the application.
    pub service_instance_id: u8,
    /// The largest file-block write the service accepts; bounded by the
    /// negotiated MTU.
    pub max_block_size: usize,
}

impl Default for BleParams {
    /// The parameters the firmware ships with.
    fn default() -> (p: BleParams)
        ensures
            p.ota_app_id == 254,
            p.service_instance_id == 3,
            p.max_block_size == 512,
    {
        BleParams { ota_app_id: 254, service_instance_id: 3, max_block_size: 512 }
    }
}

} // verus!
