//! Bring-up of the OTA service on the GATT stack: a small state machine
//! that walks registration, service creation, characteristic addition and
//! service start, validating each acknowledgement the stack delivers.

use vstd::prelude::*;

use crate::config::{BleParams, GattUuids};

verus! {

/// The number of characteristics the service registers.
pub const CHARACTERISTIC_COUNT: u8 = 6;

/// How far the bring-up has come.
#[derive(Clone, Copy, Debug, PartialEq, Eq, Structural)]
pub enum SetupPhase {
    /// Waiting for the stack to acknowledge the application registration.
    AwaitingRegistration,
    /// Service creation was requested; waiting for the service handle.
    AwaitingService,
    /// The service exists; its characteristics are being added.
    AddingCharacteristics,
    /// Every characteristic is in place; waiting for the service to start.
    Starting,
    /// The service runs; advertising may begin.
    Running,
    /// The stack refused a step; the service is not available.
    Failed,
}

/// An acknowledgement delivered by the GATT stack.
#[derive(Clone, Copy, Debug, PartialEq, Eq, Structural)]
pub enum GattServerEvent {
    /// An application registration completed.
    ServiceRegistered {
        /// Whether the stack reported success.
        ok: bool,
        /// Which application the acknowledgement is for.
        app_id: u16,
    },
    /// A service creation completed.
    ServiceCreated {
        /// Whether the stack reported success.
        ok: bool,
        /// The UUID of the created service.
        service_uuid: u128,
        /// The handle the stack assigned to it.
        service_handle: u16,
    },
    /// A characteristic addition completed.
    CharacteristicAdded {
        /// Whether the stack reported success.
        ok: bool,
        /// The service the characteristic was added to.
        service_handle: u16,
    },
    /// A service start completed.
    ServiceStarted {
        /// Whether the stack reported success.
        ok: bool,
        /// The service that started.
        service_handle: u16,
    },
    /// A peer connected.
    PeerConnected,
    /// A peer disconnected.
    PeerDisconnected,
}

/// What the platform owes after an accepted bring-up event.
#[derive(Clone, Copy, Debug, PartialEq, Eq, Structural)]
pub enum SetupAction {
    /// Nothing.
    NoAction,
    /// Create the primary service under this identity.
    CreateService {
        /// The service UUID.
        uuid: u128,
        /// The instance identity within the application.
        instance_id: u8,
    },
    /// Add the characteristic set (see `OtaGattService::configs`) to the
    /// service, one addition per acknowledgement.
    AddCharacteristics {
        /// The service to add them to.
        service_handle: u16,
    },
    /// Start the service.
    StartService {
        /// The service to start.
        service_handle: u16,
    },
    /// Start (or resume) advertising.
    StartAdvertising,
}

/// Why the bring-up failed or an acknowledgement was refused.
#[derive(Clone, Copy, Debug, PartialEq, Eq, Structural)]
pub enum SetupError {
    /// The stack refused the application registration.
    RegistrationFailed,
    /// The stack refused to create the service.
    ServiceCreationFailed,
    /// The stack refused a characteristic.
    CharacteristicFailed,
    /// The stack refused to start the service.
    StartFailed,
    /// The acknowledgement does not belong to the current phase.
    UnexpectedEvent,
}

/// Owns the bring-up of the OTA service: which phase it is in, the handle
/// the stack assigned, and how many peers are connected. Acknowledgements
/// for other applications or services pass through untouched.
pub struct OtaBle {
    /// The BLE-level parameters the service registers under.
    pub params: BleParams,
    /// The service and characteristic identities.
    pub uuids: GattUuids,
    /// How far the bring-up has come.
    pub phase: SetupPhase,
    /// The handle the stack assigned to the service.
    pub service_handle: Option<u16>,
    /// How many characteristics the stack has acknowledged.
    pub chars_added: u8,
    /// How many peers are connected.
    pub connected: u32,
    /// The most connections the deployment allows.
    pub max_connections: u32,
}

impl OtaBle {
    /// The phase agrees with what was recorded along the way.
    pub open spec fn wf(self) -> bool {
        &&& (self.phase == SetupPhase::AddingCharacteristics || self.phase == SetupPhase::Starting
            || self.phase == SetupPhase::Running) ==> self.service_handle is Some
        &&& self.phase == SetupPhase::AddingCharacteristics ==> self.chars_added
            < CHARACTERISTIC_COUNT
    }

    /// A bring-up that has not begun: the registration of `params.ota_app_id`
    /// is assumed requested.
    pub fn new(params: BleParams, uuids: GattUuids, max_connections: u32) -> (s: OtaBle)
        ensures
            s.wf(),
            s.params == params,
            s.uuids == uuids,
            s.phase == SetupPhase::AwaitingRegistration,
            s.service_handle is None,
            s.connected == 0,
            s.max_connections == max_connections,
    {
        OtaBle {
            params,
            uuids,
            phase: SetupPhase::AwaitingRegistration,
            service_handle: None,
            chars_added: 0,
            connected: 0,
            max_connections,
        }
    }

    /// Whether the acknowledged registration belongs to this application.
    pub open spec fn is_ours_registration(self, app_id: u16) -> bool {
        app_id == self.params.ota_app_id
    }

    /// Whether the acknowledged service is this service.
    pub open spec fn is_ours_handle(self, handle: u16) -> bool {
        self.service_handle == Some(handle)
    }

    /// Drives the bring-up with one acknowledgement from the stack.
    ///
    /// A successful registration asks for the service; a created service
    /// asks for its characteristics; the last acknowledged characteristic
    /// asks for the start; a started service asks for advertising. Any
    /// refusal from the stack fails the bring-up for good. Connect and
    /// disconnect events keep the peer count, and a connect asks to resume
    /// advertising while there is room for another peer.
    pub fn handle_gatt_event(&mut self, event: GattServerEvent) -> (r: Result<
        SetupAction,
        SetupError,
    >)
        requires
            old(self).wf(),
        ensures
            final(self).wf(),
            final(self).params == old(self).params,
            final(self).uuids == old(self).uuids,
            final(self).max_connections == old(self).max_connections,
            match event {
                GattServerEvent::ServiceRegistered { ok, app_id } => {
                    if !old(self).is_ours_registration(app_id) {
                        &&& *final(self) == *old(self)
                        &&& r == Ok::<SetupAction, SetupError>(SetupAction::NoAction)
                    } else if old(self).phase != SetupPhase::AwaitingRegistration {
                        &&& *final(self) == *old(self)
                        &&& r == Err::<SetupAction, SetupError>(SetupError::UnexpectedEvent)
                    } else if !ok {
                        &&& final(self).phase == SetupPhase::Failed
                        &&& r == Err::<SetupAction, SetupError>(SetupError::RegistrationFailed)
                    } else {
                        &&& final(self).phase == SetupPhase::AwaitingService
                        &&& r == Ok::<SetupAction, SetupError>(
                            SetupAction::CreateService {
                                uuid: old(self).uuids.service,
                                instance_id: old(self).params.service_instance_id,
                            },
                        )
                    }
                },
                GattServerEvent::ServiceCreated { ok, service_uuid, service_handle } => {
                    if service_uuid != old(self).uuids.service {
                        &&& *final(self) == *old(self)
                        &&& r == Ok::<SetupAction, SetupError>(SetupAction::NoAction)
                    } else if old(self).phase != SetupPhase::AwaitingService {
                        &&& *final(self) == *old(self)
                        &&& r == Err::<SetupAction, SetupError>(SetupError::UnexpectedEvent)
                    } else if !ok {
                        &&& final(self).phase == SetupPhase::Failed
                        &&& r == Err::<SetupAction, SetupError>(SetupError::ServiceCreationFailed)
                    } else {
                        &&& final(self).phase == SetupPhase::AddingCharacteristics
                        &&& final(self).service_handle == Some(service_handle)
                        &&& final(self).chars_added == 0
                        &&& r == Ok::<SetupAction, SetupError>(
                            SetupAction::AddCharacteristics { service_handle },
                        )
                    }
                },
                GattServerEvent::CharacteristicAdded { ok, service_handle } => {
                    if !old(self).is_ours_handle(service_handle) {
                        &&& *final(self) == *old(self)
                        &&& r == Ok::<SetupAction, SetupError>(SetupAction::NoAction)
                    } else if old(self).phase != SetupPhase::AddingCharacteristics {
                        &&& *final(self) == *old(self)
                        &&& r == Err::<SetupAction, SetupError>(SetupError::UnexpectedEvent)
                    } else if !ok {
                        &&& final(self).phase == SetupPhase::Failed
                        &&& r == Err::<SetupAction, SetupError>(SetupError::CharacteristicFailed)
                    } else if old(self).chars_added + 1 == CHARACTERISTIC_COUNT {
                        &&& final(self).phase == SetupPhase::Starting
                        &&& final(self).chars_added == CHARACTERISTIC_COUNT
                        &&& r == Ok::<SetupAction, SetupError>(
                            SetupAction::StartService { service_handle },
                        )
                    } else {
                        &&& final(self).phase == SetupPhase::AddingCharacteristics
                        &&& final(self).chars_added == old(self).chars_added + 1
                        &&& r == Ok::<SetupAction, SetupError>(SetupAction::NoAction)
                    }
                },
                GattServerEvent::ServiceStarted { ok, service_handle } => {
                    if !old(self).is_ours_handle(service_handle) {
                        &&& *final(self) == *old(self)
                        &&& r == Ok::<SetupAction, SetupError>(SetupAction::NoAction)
                    } else if old(self).phase != SetupPhase::Starting {
                        &&& *final(self) == *old(self)
                        &&& r == Err::<SetupAction, SetupError>(SetupError::UnexpectedEvent)
                    } else if !ok {
                        &&& final(self).phase == SetupPhase::Failed
                        &&& r == Err::<SetupAction, SetupError>(SetupError::StartFailed)
                    } else {
                        &&& final(self).phase == SetupPhase::Running
                        &&& r == Ok::<SetupAction, SetupError>(SetupAction::StartAdvertising)
                    }
                },
                GattServerEvent::PeerConnected => {
                    &&& final(self).connected == (if old(self).connected < u32::MAX {
                        old(self).connected + 1
                    } else {
                        old(self).connected as int
                    })
                    &&& final(self).phase == old(self).phase
                    &&& r == Ok::<SetupAction, SetupError>(
                        if final(self).connected < old(self).max_connections {
                            SetupAction::StartAdvertising
                        } else {
                            SetupAction::NoAction
                        },
                    )
                },
                GattServerEvent::PeerDisconnected => {
                    &&& final(self).connected == (if old(self).connected > 0 {
                        old(self).connected - 1
                    } else {
                        0int
                    })
                    &&& final(self).phase == old(self).phase
                    &&& r == Ok::<SetupAction, SetupError>(SetupAction::NoAction)
                },
            },
    {
        match event {
            GattServerEvent::ServiceRegistered { ok, app_id } => {
                if app_id != self.params.ota_app_id {
                    Ok(SetupAction::NoAction)
                } else if !matches!(self.phase, SetupPhase::AwaitingRegistration) {
                    Err(SetupError::UnexpectedEvent)
                } else if !ok {
                    self.phase = SetupPhase::Failed;
                    Err(SetupError::RegistrationFailed)
                } else {
                    self.phase = SetupPhase::AwaitingService;
                    Ok(SetupAction::CreateService {
                        uuid: self.uuids.service,
                        instance_id: self.params.service_instance_id,
                    })
                }
            },
            GattServerEvent::ServiceCreated { ok, service_uuid, service_handle } => {
                if service_uuid != self.uuids.service {
                    Ok(SetupAction::NoAction)
                } else if !matches!(self.phase, SetupPhase::AwaitingService) {
                    Err(SetupError::UnexpectedEvent)
                } else if !ok {
                    self.phase = SetupPhase::Failed;
                    Err(SetupError::ServiceCreationFailed)
                } else {
                    self.phase = SetupPhase::AddingCharacteristics;
                    self.service_handle = Some(service_handle);
                    self.chars_added = 0;
                    Ok(SetupAction::AddCharacteristics { service_handle })
                }
            },
            GattServerEvent::CharacteristicAdded { ok, service_handle } => {
                let ours = match self.service_handle {
                    Some(h) => h == service_handle,
                    None => false,
                };
                if !ours {
                    Ok(SetupAction::NoAction)
                } else if !matches!(self.phase, SetupPhase::AddingCharacteristics) {
                    Err(SetupError::UnexpectedEvent)
                } else if !ok {
                    self.phase = SetupPhase::Failed;
                    Err(SetupError::CharacteristicFailed)
                } else {
                    self.chars_added = self.chars_added + 1;
                    if self.chars_added == CHARACTERISTIC_COUNT {
                        self.phase = SetupPhase::Starting;
                        Ok(SetupAction::StartService { service_handle })
                    } else {
                        Ok(SetupAction::NoAction)
                    }
                }
            },
            GattServerEvent::ServiceStarted { ok, service_handle } => {
                let ours = match self.service_handle {
                    Some(h) => h == service_handle,
                    None => false,
                };
                if !ours {
                    Ok(SetupAction::NoAction)
                } else if !matches!(self.phase, SetupPhase::Starting) {
                    Err(SetupError::UnexpectedEvent)
                } else if !ok {
                    self.phase = SetupPhase::Failed;
                    Err(SetupError::StartFailed)
                } else {
                    self.phase = SetupPhase::Running;
                    Ok(SetupAction::StartAdvertising)
                }
            },
            GattServerEvent::PeerConnected => {
                if self.connected < u32::MAX {
                    self.connected = self.connected + 1;
                }
                if self.connected < self.max_connections {
                    Ok(SetupAction::StartAdvertising)
                } else {
                    Ok(SetupAction::NoAction)
                }
            },
            GattServerEvent::PeerDisconnected => {
                if self.connected > 0 {
                    self.connected = self.connected - 1;
                }
                Ok(SetupAction::NoAction)
            },
        }
    }
}

} // verus!
