//! Value types exchanged with the service control manager: service type,
//! start policy, error-control policy, run state, accepted controls, exit
//! code and the full status snapshot, together with their bidirectional
//! mapping to the fixed numeric codes of the wire format.

use vstd::prelude::*;

verus! {

// Fixed numeric constants of the service control manager's wire format.
// These values are externally defined and not negotiable.

/// Wire code for a service that runs in its own process.
pub const SERVICE_WIN32_OWN_PROCESS: u32 = 0x10;

/// Wire code for the stopped run state.
pub const SERVICE_STOPPED: u32 = 1;
/// Wire code for the start-pending run state.
pub const SERVICE_START_PENDING: u32 = 2;
/// Wire code for the stop-pending run state.
pub const SERVICE_STOP_PENDING: u32 = 3;
/// Wire code for the running run state.
pub const SERVICE_RUNNING: u32 = 4;
/// Wire code for the continue-pending run state.
pub const SERVICE_CONTINUE_PENDING: u32 = 5;
/// Wire code for the pause-pending run state.
pub const SERVICE_PAUSE_PENDING: u32 = 6;
/// Wire code for the paused run state.
pub const SERVICE_PAUSED: u32 = 7;

/// Wire code for the auto-start policy.
pub const SERVICE_AUTO_START: u32 = 2;
/// Wire code for the on-demand start policy.
pub const SERVICE_DEMAND_START: u32 = 3;
/// Wire code for the disabled start policy.
pub const SERVICE_DISABLED: u32 = 4;

/// Wire code for the ignore failure policy.
pub const SERVICE_ERROR_IGNORE: u32 = 0;
/// Wire code for the normal failure policy.
pub const SERVICE_ERROR_NORMAL: u32 = 1;
/// Wire code for the severe failure policy.
pub const SERVICE_ERROR_SEVERE: u32 = 2;
/// Wire code for the critical failure policy.
pub const SERVICE_ERROR_CRITICAL: u32 = 3;

/// Wire code of the stop control command.
pub const SERVICE_CONTROL_STOP: u32 = 1;
/// Wire code of the pause control command.
pub const SERVICE_CONTROL_PAUSE: u32 = 2;
/// Wire code of the continue control command.
pub const SERVICE_CONTROL_CONTINUE: u32 = 3;
/// Wire code of the interrogate control command.
pub const SERVICE_CONTROL_INTERROGATE: u32 = 4;
/// Wire code of the shutdown control command.
pub const SERVICE_CONTROL_SHUTDOWN: u32 = 5;
/// Wire code of the parameter-change control command.
pub const SERVICE_CONTROL_PARAMCHANGE: u32 = 6;
/// Wire code of the network-binding-added control command.
pub const SERVICE_CONTROL_NETBINDADD: u32 = 7;
/// Wire code of the network-binding-removed control command.
pub const SERVICE_CONTROL_NETBINDREMOVE: u32 = 8;
/// Wire code of the network-binding-enabled control command.
pub const SERVICE_CONTROL_NETBINDENABLE: u32 = 9;
/// Wire code of the network-binding-disabled control command.
pub const SERVICE_CONTROL_NETBINDDISABLE: u32 = 10;
/// Wire code of the preshutdown control command.
pub const SERVICE_CONTROL_PRESHUTDOWN: u32 = 0xF;

/// Errors raised by the service layer.
///
/// The three decode variants carry the raw value that fell outside the known
/// enumeration; `System` carries the numeric operating-system error code of a
/// failed service call.
#[derive(Debug, Clone, Copy, PartialEq, Eq, Structural)]
pub enum ServiceError {
    InvalidServiceType(u32),
    InvalidServiceState(u32),
    InvalidServiceControl(u32),
    System(u32),
}

/// Run state of a service, as reported in a status snapshot.
#[derive(Debug, Clone, Copy, PartialEq, Eq, Hash, Structural)]
pub enum ServiceState {
    Stopped,
    StartPending,
    StopPending,
    Running,
    ContinuePending,
    PausePending,
    Paused,
}

/// Wire code that a run state is transmitted as.
pub open spec fn spec_state_to_raw(state: ServiceState) -> u32 {
    match state {
        ServiceState::Stopped => SERVICE_STOPPED,
        ServiceState::StartPending => SERVICE_START_PENDING,
        ServiceState::StopPending => SERVICE_STOP_PENDING,
        ServiceState::Running => SERVICE_RUNNING,
        ServiceState::ContinuePending => SERVICE_CONTINUE_PENDING,
        ServiceState::PausePending => SERVICE_PAUSE_PENDING,
        ServiceState::Paused => SERVICE_PAUSED,
    }
}

/// Run state denoted by a wire code; `None` for a code outside the known
/// enumeration.
pub open spec fn spec_state_from_raw(raw: u32) -> Option<ServiceState> {
    if raw == SERVICE_STOPPED {
        Some(ServiceState::Stopped)
    } else if raw == SERVICE_START_PENDING {
        Some(ServiceState::StartPending)
    } else if raw == SERVICE_STOP_PENDING {
        Some(ServiceState::StopPending)
    } else if raw == SERVICE_RUNNING {
        Some(ServiceState::Running)
    } else if raw == SERVICE_CONTINUE_PENDING {
        Some(ServiceState::ContinuePending)
    } else if raw == SERVICE_PAUSE_PENDING {
        Some(ServiceState::PausePending)
    } else if raw == SERVICE_PAUSED {
        Some(ServiceState::Paused)
    } else {
        None
    }
}

impl ServiceState {
    /// Decode a raw run-state code. An unrecognized code is a hard decode
    /// error, never coerced to a default.
    pub fn from_raw(raw_state: u32) -> (r: Result<Self, ServiceError>)
        ensures
            match r {
                Ok(state) => spec_state_from_raw(raw_state) == Some(state),
                Err(e) => {
                    &&& spec_state_from_raw(raw_state) is None
                    &&& e == ServiceError::InvalidServiceState(raw_state)
                },
            },
    {
        if raw_state == SERVICE_STOPPED {
            Ok(ServiceState::Stopped)
        } else if raw_state == SERVICE_START_PENDING {
            Ok(ServiceState::StartPending)
        } else if raw_state == SERVICE_STOP_PENDING {
            Ok(ServiceState::StopPending)
        } else if raw_state == SERVICE_RUNNING {
            Ok(ServiceState::Running)
        } else if raw_state == SERVICE_CONTINUE_PENDING {
            Ok(ServiceState::ContinuePending)
        } else if raw_state == SERVICE_PAUSE_PENDING {
            Ok(ServiceState::PausePending)
        } else if raw_state == SERVICE_PAUSED {
            Ok(ServiceState::Paused)
        } else {
            Err(ServiceError::InvalidServiceState(raw_state))
        }
    }

    /// Wire code of this run state.
    pub fn to_raw(&self) -> (r: u32)
        ensures
            r == spec_state_to_raw(*self),
    {
        match *self {
            ServiceState::Stopped => SERVICE_STOPPED,
            ServiceState::StartPending => SERVICE_START_PENDING,
            ServiceState::StopPending => SERVICE_STOP_PENDING,
            ServiceState::Running => SERVICE_RUNNING,
            ServiceState::ContinuePending => SERVICE_CONTINUE_PENDING,
            ServiceState::PausePending => SERVICE_PAUSE_PENDING,
            ServiceState::Paused => SERVICE_PAUSED,
        }
    }

    /// Whether this state is one of the four pending transitions, during
    /// which a nonzero checkpoint may be reported.
    pub fn is_pending(&self) -> (r: bool)
        ensures
            r == spec_state_is_pending(*self),
    {
        match *self {
            ServiceState::StartPending
            | ServiceState::StopPending
            | ServiceState::PausePending
            | ServiceState::ContinuePending => true,
            _ => false,
        }
    }
}

/// Whether a run state is one of the four pending transitions.
pub open spec fn spec_state_is_pending(state: ServiceState) -> bool {
    match state {
        ServiceState::StartPending
        | ServiceState::StopPending
        | ServiceState::PausePending
        | ServiceState::ContinuePending => true,
        _ => false,
    }
}

/// Every run-state wire code that decodes at all decodes to the state that
/// encodes back to it, and every state survives the encode-decode cycle:
/// the mapping between run states and wire codes is a bijection on the known
/// codes.
pub proof fn lemma_state_raw_round_trip()
    ensures
        forall|raw: u32|
            (#[trigger] spec_state_from_raw(raw)) matches Some(state)
                ==> spec_state_to_raw(state) == raw,
        forall|state: ServiceState|
            spec_state_from_raw(#[trigger] spec_state_to_raw(state)) == Some(state),
{
}

/// Type of a service entry.
#[derive(Debug, Clone, Copy, PartialEq, Eq, Hash, Structural)]
pub enum ServiceType {
    /// Service that runs in its own process.
    OwnProcess,
}

/// Wire code that a service type is transmitted as.
pub open spec fn spec_service_type_to_raw(service_type: ServiceType) -> u32 {
    match service_type {
        ServiceType::OwnProcess => SERVICE_WIN32_OWN_PROCESS,
    }
}

/// Service type denoted by a wire code; `None` for a code outside the known
/// enumeration.
pub open spec fn spec_service_type_from_raw(raw: u32) -> Option<ServiceType> {
    if raw == SERVICE_WIN32_OWN_PROCESS {
        Some(ServiceType::OwnProcess)
    } else {
        None
    }
}

impl ServiceType {
    /// Decode a raw service-type code. An unrecognized code is a hard decode
    /// error, never coerced to a default.
    pub fn from_raw(raw_value: u32) -> (r: Result<Self, ServiceError>)
        ensures
            match r {
                Ok(service_type) => spec_service_type_from_raw(raw_value) == Some(service_type),
                Err(e) => {
                    &&& spec_service_type_from_raw(raw_value) is None
                    &&& e == ServiceError::InvalidServiceType(raw_value)
                },
            },
    {
        if raw_value == SERVICE_WIN32_OWN_PROCESS {
            Ok(ServiceType::OwnProcess)
        } else {
            Err(ServiceError::InvalidServiceType(raw_value))
        }
    }

    /// Wire code of this service type.
    pub fn to_raw(&self) -> (r: u32)
        ensures
            r == spec_service_type_to_raw(*self),
    {
        match *self {
            ServiceType::OwnProcess => SERVICE_WIN32_OWN_PROCESS,
        }
    }
}

/// Start policy of a service entry.
#[derive(Debug, Clone, Copy, PartialEq, Eq, Hash, Structural)]
pub enum ServiceStartType {
    /// Started automatically on system startup.
    AutoStart,
    /// Enabled, started on demand.
    OnDemand,
    /// Disabled.
    Disabled,
}

/// Wire code that a start policy is transmitted as.
pub open spec fn spec_start_type_to_raw(start_type: ServiceStartType) -> u32 {
    match start_type {
        ServiceStartType::AutoStart => SERVICE_AUTO_START,
        ServiceStartType::OnDemand => SERVICE_DEMAND_START,
        ServiceStartType::Disabled => SERVICE_DISABLED,
    }
}

impl ServiceStartType {
    /// Wire code of this start policy.
    pub fn to_raw(&self) -> (r: u32)
        ensures
            r == spec_start_type_to_raw(*self),
    {
        match *self {
            ServiceStartType::AutoStart => SERVICE_AUTO_START,
            ServiceStartType::OnDemand => SERVICE_DEMAND_START,
            ServiceStartType::Disabled => SERVICE_DISABLED,
        }
    }
}

/// Failure policy of a service entry: how the system reacts when the
/// service fails to start.
#[derive(Debug, Clone, Copy, PartialEq, Eq, Hash, Structural)]
pub enum ServiceErrorControl {
    Critical,
    Ignore,
    Normal,
    Severe,
}

/// Wire code that a failure policy is transmitted as.
pub open spec fn spec_error_control_to_raw(error_control: ServiceErrorControl) -> u32 {
    match error_control {
        ServiceErrorControl::Critical => SERVICE_ERROR_CRITICAL,
        ServiceErrorControl::Ignore => SERVICE_ERROR_IGNORE,
        ServiceErrorControl::Normal => SERVICE_ERROR_NORMAL,
        ServiceErrorControl::Severe => SERVICE_ERROR_SEVERE,
    }
}

impl ServiceErrorControl {
    /// Wire code of this failure policy.
    pub fn to_raw(&self) -> (r: u32)
        ensures
            r == spec_error_control_to_raw(*self),
    {
        match *self {
            ServiceErrorControl::Critical => SERVICE_ERROR_CRITICAL,
            ServiceErrorControl::Ignore => SERVICE_ERROR_IGNORE,
            ServiceErrorControl::Normal => SERVICE_ERROR_NORMAL,
            ServiceErrorControl::Severe => SERVICE_ERROR_SEVERE,
        }
    }
}

/// Inbound control command delivered by the service control manager.
#[derive(Debug, Clone, Copy, PartialEq, Eq, Hash, Structural)]
pub enum ServiceControl {
    Continue,
    Interrogate,
    NetBindAdd,
    NetBindDisable,
    NetBindEnable,
    NetBindRemove,
    ParamChange,
    Pause,
    Preshutdown,
    Shutdown,
    Stop,
}

/// Wire code that a control command is transmitted as.
pub open spec fn spec_control_to_raw(control: ServiceControl) -> u32 {
    match control {
        ServiceControl::Continue => SERVICE_CONTROL_CONTINUE,
        ServiceControl::Interrogate => SERVICE_CONTROL_INTERROGATE,
        ServiceControl::NetBindAdd => SERVICE_CONTROL_NETBINDADD,
        ServiceControl::NetBindDisable => SERVICE_CONTROL_NETBINDDISABLE,
        ServiceControl::NetBindEnable => SERVICE_CONTROL_NETBINDENABLE,
        ServiceControl::NetBindRemove => SERVICE_CONTROL_NETBINDREMOVE,
        ServiceControl::ParamChange => SERVICE_CONTROL_PARAMCHANGE,
        ServiceControl::Pause => SERVICE_CONTROL_PAUSE,
        ServiceControl::Preshutdown => SERVICE_CONTROL_PRESHUTDOWN,
        ServiceControl::Shutdown => SERVICE_CONTROL_SHUTDOWN,
        ServiceControl::Stop => SERVICE_CONTROL_STOP,
    }
}

/// Control command denoted by a wire code; `None` for a code outside the
/// known enumeration.
pub open spec fn spec_control_from_raw(raw: u32) -> Option<ServiceControl> {
    if raw == SERVICE_CONTROL_CONTINUE {
        Some(ServiceControl::Continue)
    } else if raw == SERVICE_CONTROL_INTERROGATE {
        Some(ServiceControl::Interrogate)
    } else if raw == SERVICE_CONTROL_NETBINDADD {
        Some(ServiceControl::NetBindAdd)
    } else if raw == SERVICE_CONTROL_NETBINDDISABLE {
        Some(ServiceControl::NetBindDisable)
    } else if raw == SERVICE_CONTROL_NETBINDENABLE {
        Some(ServiceControl::NetBindEnable)
    } else if raw == SERVICE_CONTROL_NETBINDREMOVE {
        Some(ServiceControl::NetBindRemove)
    } else if raw == SERVICE_CONTROL_PARAMCHANGE {
        Some(ServiceControl::ParamChange)
    } else if raw == SERVICE_CONTROL_PAUSE {
        Some(ServiceControl::Pause)
    } else if raw == SERVICE_CONTROL_PRESHUTDOWN {
        Some(ServiceControl::Preshutdown)
    } else if raw == SERVICE_CONTROL_SHUTDOWN {
        Some(ServiceControl::Shutdown)
    } else if raw == SERVICE_CONTROL_STOP {
        Some(ServiceControl::Stop)
    } else {
        None
    }
}

impl ServiceControl {
    /// Decode a raw control code. An unrecognized code is a hard decode
    /// error, never coerced to one of the known commands.
    pub fn from_raw(raw_value: u32) -> (r: Result<Self, ServiceError>)
        ensures
            match r {
                Ok(control) => spec_control_from_raw(raw_value) == Some(control),
                Err(e) => {
                    &&& spec_control_from_raw(raw_value) is None
                    &&& e == ServiceError::InvalidServiceControl(raw_value)
                },
            },
    {
        if raw_value == SERVICE_CONTROL_CONTINUE {
            Ok(ServiceControl::Continue)
        } else if raw_value == SERVICE_CONTROL_INTERROGATE {
            Ok(ServiceControl::Interrogate)
        } else if raw_value == SERVICE_CONTROL_NETBINDADD {
            Ok(ServiceControl::NetBindAdd)
        } else if raw_value == SERVICE_CONTROL_NETBINDDISABLE {
            Ok(ServiceControl::NetBindDisable)
        } else if raw_value == SERVICE_CONTROL_NETBINDENABLE {
            Ok(ServiceControl::NetBindEnable)
        } else if raw_value == SERVICE_CONTROL_NETBINDREMOVE {
            Ok(ServiceControl::NetBindRemove)
        } else if raw_value == SERVICE_CONTROL_PARAMCHANGE {
            Ok(ServiceControl::ParamChange)
        } else if raw_value == SERVICE_CONTROL_PAUSE {
            Ok(ServiceControl::Pause)
        } else if raw_value == SERVICE_CONTROL_PRESHUTDOWN {
            Ok(ServiceControl::Preshutdown)
        } else if raw_value == SERVICE_CONTROL_SHUTDOWN {
            Ok(ServiceControl::Shutdown)
        } else if raw_value == SERVICE_CONTROL_STOP {
            Ok(ServiceControl::Stop)
        } else {
            Err(ServiceError::InvalidServiceControl(raw_value))
        }
    }

    /// Wire code of this control command.
    pub fn to_raw(&self) -> (r: u32)
        ensures
            r == spec_control_to_raw(*self),
    {
        match *self {
            ServiceControl::Continue => SERVICE_CONTROL_CONTINUE,
            ServiceControl::Interrogate => SERVICE_CONTROL_INTERROGATE,
            ServiceControl::NetBindAdd => SERVICE_CONTROL_NETBINDADD,
            ServiceControl::NetBindDisable => SERVICE_CONTROL_NETBINDDISABLE,
            ServiceControl::NetBindEnable => SERVICE_CONTROL_NETBINDENABLE,
            ServiceControl::NetBindRemove => SERVICE_CONTROL_NETBINDREMOVE,
            ServiceControl::ParamChange => SERVICE_CONTROL_PARAMCHANGE,
            ServiceControl::Pause => SERVICE_CONTROL_PAUSE,
            ServiceControl::Preshutdown => SERVICE_CONTROL_PRESHUTDOWN,
            ServiceControl::Shutdown => SERVICE_CONTROL_SHUTDOWN,
            ServiceControl::Stop => SERVICE_CONTROL_STOP,
        }
    }
}

/// Access-right bit for querying a service's status.
pub const SERVICE_QUERY_STATUS: u32 = 0x4;
/// Access-right bit for starting a service.
pub const SERVICE_START: u32 = 0x10;
/// Access-right bit for stopping a service.
pub const SERVICE_STOP: u32 = 0x20;
/// Access-right bit for pausing or continuing a service.
pub const SERVICE_PAUSE_CONTINUE: u32 = 0x40;
/// Access-right bit for asking a service to report its status.
pub const SERVICE_INTERROGATE: u32 = 0x80;
/// Standard access-right bit for deleting an object.
pub const DELETE: u32 = 0x10000;

/// Capability flags requested when obtaining a service handle. Any
/// operation attempted through a handle fails if the corresponding right
/// was not included at open time.
#[derive(Debug, Clone, Copy, PartialEq, Eq, Structural)]
pub struct ServiceAccess {
    /// Can query the service status.
    pub query_status: bool,
    /// Can start the service.
    pub start: bool,
    /// Can stop the service.
    pub stop: bool,
    /// Can pause or continue the service execution.
    pub pause_continue: bool,
    /// Can ask the service to report its status.
    pub interrogate: bool,
    /// Can delete the service.
    pub delete: bool,
}

/// Bit mask that a set of requested service access rights is transmitted
/// as.
pub open spec fn spec_service_access_to_raw(access: ServiceAccess) -> u32 {
    (if access.query_status { SERVICE_QUERY_STATUS } else { 0u32 })
        | (if access.start { SERVICE_START } else { 0u32 })
        | (if access.stop { SERVICE_STOP } else { 0u32 })
        | (if access.pause_continue { SERVICE_PAUSE_CONTINUE } else { 0u32 })
        | (if access.interrogate { SERVICE_INTERROGATE } else { 0u32 })
        | (if access.delete { DELETE } else { 0u32 })
}

impl ServiceAccess {
    /// The empty request set: no rights at all.
    pub fn empty() -> (r: Self)
        ensures
            r == (ServiceAccess {
                query_status: false,
                start: false,
                stop: false,
                pause_continue: false,
                interrogate: false,
                delete: false,
            }),
    {
        ServiceAccess {
            query_status: false,
            start: false,
            stop: false,
            pause_continue: false,
            interrogate: false,
            delete: false,
        }
    }

    /// Bit mask of the requested rights.
    pub fn to_raw(&self) -> (r: u32)
        ensures
            r == spec_service_access_to_raw(*self),
    {
        let query_bit: u32 = if self.query_status { SERVICE_QUERY_STATUS } else { 0 };
        let start_bit: u32 = if self.start { SERVICE_START } else { 0 };
        let stop_bit: u32 = if self.stop { SERVICE_STOP } else { 0 };
        let pause_bit: u32 = if self.pause_continue { SERVICE_PAUSE_CONTINUE } else { 0 };
        let interrogate_bit: u32 = if self.interrogate { SERVICE_INTERROGATE } else { 0 };
        let delete_bit: u32 = if self.delete { DELETE } else { 0 };
        query_bit | start_bit | stop_bit | pause_bit | interrogate_bit | delete_bit
    }
}

/// Accept-mask bit for the stop control.
pub const SERVICE_ACCEPT_STOP: u32 = 0x1;
/// Accept-mask bit for the pause and continue controls.
pub const SERVICE_ACCEPT_PAUSE_CONTINUE: u32 = 0x2;
/// Accept-mask bit for the shutdown control.
pub const SERVICE_ACCEPT_SHUTDOWN: u32 = 0x4;
/// Accept-mask bit for the parameter-change control.
pub const SERVICE_ACCEPT_PARAMCHANGE: u32 = 0x8;
/// Accept-mask bit for the network-binding family of controls.
pub const SERVICE_ACCEPT_NETBINDCHANGE: u32 = 0x10;
/// Accept-mask bit for the preshutdown control.
pub const SERVICE_ACCEPT_PRESHUTDOWN: u32 = 0x100;

/// Set of control requests a service declares it accepts.
///
/// Constructed through [`ServiceControlAcceptBuilder`], which rejects a set
/// with both `preshutdown` and `shutdown`: a service that registered for
/// preshutdown notifications has already stopped by the time shutdown
/// notifications are delivered.
#[derive(Debug, Clone, Copy, PartialEq, Eq, Structural)]
pub struct ServiceControlAccept {
    /// The service is a network component that accepts changes in its
    /// binding without being stopped and restarted.
    pub netbind_change: bool,
    /// The service can reread its startup parameters without being stopped
    /// and restarted.
    pub param_change: bool,
    /// The service can be paused and continued.
    pub pause_continue: bool,
    /// The service can perform preshutdown tasks. Mutually exclusive with
    /// `shutdown`.
    pub preshutdown: bool,
    /// The service is notified when system shutdown occurs. Mutually
    /// exclusive with `preshutdown`.
    pub shutdown: bool,
    /// The service can be stopped.
    pub stop: bool,
}

/// Bit mask that an accepted-controls set is transmitted as.
pub open spec fn spec_accept_to_raw(accept: ServiceControlAccept) -> u32 {
    (if accept.netbind_change { SERVICE_ACCEPT_NETBINDCHANGE } else { 0u32 })
        | (if accept.param_change { SERVICE_ACCEPT_PARAMCHANGE } else { 0u32 })
        | (if accept.pause_continue { SERVICE_ACCEPT_PAUSE_CONTINUE } else { 0u32 })
        | (if accept.preshutdown { SERVICE_ACCEPT_PRESHUTDOWN } else { 0u32 })
        | (if accept.shutdown { SERVICE_ACCEPT_SHUTDOWN } else { 0u32 })
        | (if accept.stop { SERVICE_ACCEPT_STOP } else { 0u32 })
}

/// Accepted-controls set denoted by a raw accept mask.
pub open spec fn spec_accept_from_raw(raw_mask: u32) -> ServiceControlAccept {
    ServiceControlAccept {
        netbind_change: raw_mask & SERVICE_ACCEPT_NETBINDCHANGE != 0,
        param_change: raw_mask & SERVICE_ACCEPT_PARAMCHANGE != 0,
        pause_continue: raw_mask & SERVICE_ACCEPT_PAUSE_CONTINUE != 0,
        preshutdown: raw_mask & SERVICE_ACCEPT_PRESHUTDOWN != 0,
        shutdown: raw_mask & SERVICE_ACCEPT_SHUTDOWN != 0,
        stop: raw_mask & SERVICE_ACCEPT_STOP != 0,
    }
}

impl ServiceControlAccept {
    /// Decode a raw accept mask. Unknown bits are ignored; no validation is
    /// applied to what the service control manager reports.
    pub fn from_raw(raw_mask: u32) -> (r: Self)
        ensures
            r == spec_accept_from_raw(raw_mask),
    {
        ServiceControlAccept {
            netbind_change: raw_mask & SERVICE_ACCEPT_NETBINDCHANGE != 0,
            param_change: raw_mask & SERVICE_ACCEPT_PARAMCHANGE != 0,
            pause_continue: raw_mask & SERVICE_ACCEPT_PAUSE_CONTINUE != 0,
            preshutdown: raw_mask & SERVICE_ACCEPT_PRESHUTDOWN != 0,
            shutdown: raw_mask & SERVICE_ACCEPT_SHUTDOWN != 0,
            stop: raw_mask & SERVICE_ACCEPT_STOP != 0,
        }
    }

    /// Bit mask of the accepted controls.
    pub fn to_raw(&self) -> (r: u32)
        ensures
            r == spec_accept_to_raw(*self),
    {
        let netbind_bit: u32 = if self.netbind_change { SERVICE_ACCEPT_NETBINDCHANGE } else { 0 };
        let param_bit: u32 = if self.param_change { SERVICE_ACCEPT_PARAMCHANGE } else { 0 };
        let pause_bit: u32 = if self.pause_continue { SERVICE_ACCEPT_PAUSE_CONTINUE } else { 0 };
        let preshutdown_bit: u32 = if self.preshutdown { SERVICE_ACCEPT_PRESHUTDOWN } else { 0 };
        let shutdown_bit: u32 = if self.shutdown { SERVICE_ACCEPT_SHUTDOWN } else { 0 };
        let stop_bit: u32 = if self.stop { SERVICE_ACCEPT_STOP } else { 0 };
        netbind_bit | param_bit | pause_bit | preshutdown_bit | shutdown_bit | stop_bit
    }
}

/// Encoding an accepted-controls set into its accept mask and decoding
/// the mask back yields the original set: no accept bit aliases another.
pub proof fn lemma_accept_mask_round_trip(accept: ServiceControlAccept)
    ensures
        spec_accept_from_raw(spec_accept_to_raw(accept)) == accept,
{
    let netbind_bit: u32 = if accept.netbind_change { 0x10 } else { 0 };
    let param_bit: u32 = if accept.param_change { 0x8 } else { 0 };
    let pause_bit: u32 = if accept.pause_continue { 0x2 } else { 0 };
    let preshutdown_bit: u32 = if accept.preshutdown { 0x100 } else { 0 };
    let shutdown_bit: u32 = if accept.shutdown { 0x4 } else { 0 };
    let stop_bit: u32 = if accept.stop { 0x1 } else { 0 };
    let mask = netbind_bit | param_bit | pause_bit | preshutdown_bit | shutdown_bit | stop_bit;
    assert((mask & 0x10u32 != 0) == (netbind_bit == 0x10u32)
        && (mask & 0x8u32 != 0) == (param_bit == 0x8u32)
        && (mask & 0x2u32 != 0) == (pause_bit == 0x2u32)
        && (mask & 0x100u32 != 0) == (preshutdown_bit == 0x100u32)
        && (mask & 0x4u32 != 0) == (shutdown_bit == 0x4u32)
        && (mask & 0x1u32 != 0) == (stop_bit == 0x1u32)) by (bit_vector)
        requires
            mask == netbind_bit | param_bit | pause_bit | preshutdown_bit | shutdown_bit
                | stop_bit,
            netbind_bit == 0x10u32 || netbind_bit == 0u32,
            param_bit == 0x8u32 || param_bit == 0u32,
            pause_bit == 0x2u32 || pause_bit == 0u32,
            preshutdown_bit == 0x100u32 || preshutdown_bit == 0u32,
            shutdown_bit == 0x4u32 || shutdown_bit == 0u32,
            stop_bit == 0x1u32 || stop_bit == 0u32,
    ;
}

/// Validation failure of a composite value, reported before any call to
/// the service control manager is attempted.
#[derive(Debug, Clone, Copy, PartialEq, Eq, Structural)]
pub enum ValidationError {
    /// Both `preshutdown` and `shutdown` were requested in an
    /// accepted-controls set.
    PreshutdownAndShutdown,
    /// A nonzero checkpoint was combined with a run state that has no
    /// pending operation.
    CheckpointWithoutPendingState,
}

/// Builder for an accepted-controls set. Every control starts out not
/// accepted; [`ServiceControlAcceptBuilder::build`] validates that
/// `preshutdown` and `shutdown` are not both set.
#[derive(Debug, Clone, Copy, PartialEq, Eq, Structural)]
pub struct ServiceControlAcceptBuilder {
    pub netbind_change: bool,
    pub param_change: bool,
    pub pause_continue: bool,
    pub preshutdown: bool,
    pub shutdown: bool,
    pub stop: bool,
}

impl ServiceControlAcceptBuilder {
    /// Start from the empty set: no control accepted.
    pub fn new() -> (r: Self)
        ensures
            r == (ServiceControlAcceptBuilder {
                netbind_change: false,
                param_change: false,
                pause_continue: false,
                preshutdown: false,
                shutdown: false,
                stop: false,
            }),
    {
        ServiceControlAcceptBuilder {
            netbind_change: false,
            param_change: false,
            pause_continue: false,
            preshutdown: false,
            shutdown: false,
            stop: false,
        }
    }

    /// Accept or refuse the network-binding family of controls.
    pub fn netbind_change(self, value: bool) -> (r: Self)
        ensures
            r == (ServiceControlAcceptBuilder { netbind_change: value, ..self }),
    {
        ServiceControlAcceptBuilder { netbind_change: value, ..self }
    }

    /// Accept or refuse the parameter-change control.
    pub fn param_change(self, value: bool) -> (r: Self)
        ensures
            r == (ServiceControlAcceptBuilder { param_change: value, ..self }),
    {
        ServiceControlAcceptBuilder { param_change: value, ..self }
    }

    /// Accept or refuse the pause and continue controls.
    pub fn pause_continue(self, value: bool) -> (r: Self)
        ensures
            r == (ServiceControlAcceptBuilder { pause_continue: value, ..self }),
    {
        ServiceControlAcceptBuilder { pause_continue: value, ..self }
    }

    /// Accept or refuse the preshutdown control.
    pub fn preshutdown(self, value: bool) -> (r: Self)
        ensures
            r == (ServiceControlAcceptBuilder { preshutdown: value, ..self }),
    {
        ServiceControlAcceptBuilder { preshutdown: value, ..self }
    }

    /// Accept or refuse the shutdown control.
    pub fn shutdown(self, value: bool) -> (r: Self)
        ensures
            r == (ServiceControlAcceptBuilder { shutdown: value, ..self }),
    {
        ServiceControlAcceptBuilder { shutdown: value, ..self }
    }

    /// Accept or refuse the stop control.
    pub fn stop(self, value: bool) -> (r: Self)
        ensures
            r == (ServiceControlAcceptBuilder { stop: value, ..self }),
    {
        ServiceControlAcceptBuilder { stop: value, ..self }
    }

    /// Validate and construct the accepted-controls set.
    ///
    /// A set with both `preshutdown` and `shutdown` is rejected, never
    /// silently resolved; every other combination is accepted as chosen.
    pub fn build(self) -> (r: Result<ServiceControlAccept, ValidationError>)
        ensures
            match r {
                Ok(accept) => {
                    &&& !(self.preshutdown && self.shutdown)
                    &&& accept == (ServiceControlAccept {
                        netbind_change: self.netbind_change,
                        param_change: self.param_change,
                        pause_continue: self.pause_continue,
                        preshutdown: self.preshutdown,
                        shutdown: self.shutdown,
                        stop: self.stop,
                    })
                },
                Err(e) => {
                    &&& self.preshutdown && self.shutdown
                    &&& e == ValidationError::PreshutdownAndShutdown
                },
            },
    {
        if self.preshutdown && self.shutdown {
            Err(ValidationError::PreshutdownAndShutdown)
        } else {
            Ok(ServiceControlAccept {
                netbind_change: self.netbind_change,
                param_change: self.param_change,
                pause_continue: self.pause_continue,
                preshutdown: self.preshutdown,
                shutdown: self.shutdown,
                stop: self.stop,
            })
        }
    }
}

/// Sentinel value of the win32 exit-code field that selects the
/// service-specific encoding.
pub const ERROR_SERVICE_SPECIFIC_ERROR: u32 = 1066;

/// Raw status record in the exact field layout exchanged with the service
/// control manager, every field a fixed-width wire value.
#[derive(Debug, Clone, Copy, PartialEq, Eq, Structural)]
pub struct RawServiceStatus {
    pub service_type: u32,
    pub current_state: u32,
    pub controls_accepted: u32,
    pub win32_exit_code: u32,
    pub service_specific_exit_code: u32,
    pub check_point: u32,
    pub wait_hint: u32,
}

/// Service exit code: either a plain win32 error code or a
/// service-specific code.
///
/// The two variants share a pair of wire fields: a service-specific code is
/// transmitted by setting the win32 field to the sentinel
/// [`ERROR_SERVICE_SPECIFIC_ERROR`] and placing the code in the
/// service-specific field; any other win32 field value means the win32
/// encoding is active and the service-specific field is zero.
#[derive(Debug, Clone, Copy, PartialEq, Eq, Hash, Structural)]
pub enum ServiceExitCode {
    Win32(u32),
    ServiceSpecific(u32),
}

/// Value of the win32 wire field for an exit code.
pub open spec fn spec_exit_code_win32_field(code: ServiceExitCode) -> u32 {
    match code {
        ServiceExitCode::Win32(win32_code) => win32_code,
        ServiceExitCode::ServiceSpecific(_) => ERROR_SERVICE_SPECIFIC_ERROR,
    }
}

/// Value of the service-specific wire field for an exit code.
pub open spec fn spec_exit_code_specific_field(code: ServiceExitCode) -> u32 {
    match code {
        ServiceExitCode::Win32(_) => 0,
        ServiceExitCode::ServiceSpecific(service_code) => service_code,
    }
}

/// Exit code denoted by the pair of wire fields: the sentinel in the win32
/// field selects the service-specific encoding.
pub open spec fn spec_exit_code_from_raw(win32_code: u32, service_code: u32) -> ServiceExitCode {
    if win32_code == ERROR_SERVICE_SPECIFIC_ERROR {
        ServiceExitCode::ServiceSpecific(service_code)
    } else {
        ServiceExitCode::Win32(win32_code)
    }
}

impl ServiceExitCode {
    /// Write this exit code into the two wire fields of a raw status
    /// record, leaving every other field unchanged.
    pub fn copy_to(&self, raw_service_status: &mut RawServiceStatus)
        ensures
            *final(raw_service_status) == (RawServiceStatus {
                win32_exit_code: spec_exit_code_win32_field(*self),
                service_specific_exit_code: spec_exit_code_specific_field(*self),
                ..*old(raw_service_status)
            }),
    {
        match *self {
            ServiceExitCode::Win32(win32_error_code) => {
                raw_service_status.win32_exit_code = win32_error_code;
                raw_service_status.service_specific_exit_code = 0;
            }
            ServiceExitCode::ServiceSpecific(service_error_code) => {
                raw_service_status.win32_exit_code = ERROR_SERVICE_SPECIFIC_ERROR;
                raw_service_status.service_specific_exit_code = service_error_code;
            }
        }
    }

    /// Decode the exit code carried by a raw status record.
    pub fn from_raw_service_status(raw_service_status: &RawServiceStatus) -> (r: Self)
        ensures
            r == spec_exit_code_from_raw(
                raw_service_status.win32_exit_code,
                raw_service_status.service_specific_exit_code,
            ),
    {
        if raw_service_status.win32_exit_code == ERROR_SERVICE_SPECIFIC_ERROR {
            ServiceExitCode::ServiceSpecific(raw_service_status.service_specific_exit_code)
        } else {
            ServiceExitCode::Win32(raw_service_status.win32_exit_code)
        }
    }
}

/// Encoding an exit code into its two wire fields and decoding the fields
/// back yields the original exit code.
///
/// The one excluded input is a win32 exit code equal to the sentinel that
/// selects the service-specific encoding: its wire form is
/// indistinguishable from `ServiceSpecific(0)` by construction of the
/// format.
pub proof fn lemma_exit_code_round_trip(code: ServiceExitCode)
    requires
        code matches ServiceExitCode::Win32(win32_code)
            ==> win32_code != ERROR_SERVICE_SPECIFIC_ERROR,
    ensures
        spec_exit_code_from_raw(
            spec_exit_code_win32_field(code),
            spec_exit_code_specific_field(code),
        ) == code,
{
}

/// Estimated duration of a pending operation, kept as a millisecond count.
/// The service control manager treats it as a hang-detection timeout.
#[derive(Debug, Clone, Copy, PartialEq, Eq, Hash, Structural)]
pub struct WaitHint {
    /// The duration in milliseconds.
    pub millis: u64,
}

impl WaitHint {
    /// A wait hint of the given number of seconds.
    pub fn from_secs(secs: u64) -> (r: Self)
        requires
            secs * 1000 <= u64::MAX,
        ensures
            r.millis == secs * 1000,
    {
        WaitHint { millis: secs * 1000 }
    }

    /// A wait hint of the given number of milliseconds.
    pub fn from_millis(millis: u64) -> (r: Self)
        ensures
            r.millis == millis,
    {
        WaitHint { millis }
    }

    /// The whole seconds of this wait hint.
    pub fn as_secs(&self) -> (r: u64)
        ensures
            r == self.millis / 1000,
    {
        self.millis / 1000
    }
}

/// Wire value of the wait-hint field for a given wait hint: the
/// millisecond count, truncated only to the 32-bit field. Precision
/// beyond tens of days is lost; such hints do not occur in practice.
pub open spec fn spec_wait_hint_to_raw(hint: WaitHint) -> u32 {
    (hint.millis % 0x1_0000_0000) as u32
}

/// Status snapshot of a service, as pushed to or read from the service
/// control manager.
///
/// Constructed through [`ServiceStatusBuilder`], which enforces that the
/// checkpoint is zero unless the run state is one of the four pending
/// states, so the service control manager never observes an invalid
/// snapshot.
#[derive(Debug, Clone, Copy, PartialEq, Eq, Structural)]
pub struct ServiceStatus {
    /// Type of the service.
    pub service_type: ServiceType,
    /// Current run state of the service.
    pub current_state: ServiceState,
    /// Control commands that the service accepts.
    pub controls_accepted: ServiceControlAccept,
    /// Exit code reported by the service.
    pub exit_code: ServiceExitCode,
    /// Progress counter to be increased during a lengthy pending
    /// operation. Must be zero when no start, stop, pause or continue
    /// operation is pending.
    pub checkpoint: u32,
    /// Estimated time for the pending operation.
    pub wait_hint: WaitHint,
}

/// The one validity rule of a status snapshot: a nonzero checkpoint is
/// only reported during a pending transition.
pub open spec fn spec_status_valid(status: ServiceStatus) -> bool {
    status.checkpoint != 0 ==> spec_state_is_pending(status.current_state)
}

/// Raw status record that a status snapshot is transmitted as.
pub open spec fn spec_status_to_raw(status: ServiceStatus) -> RawServiceStatus {
    RawServiceStatus {
        service_type: spec_service_type_to_raw(status.service_type),
        current_state: spec_state_to_raw(status.current_state),
        controls_accepted: spec_accept_to_raw(status.controls_accepted),
        win32_exit_code: spec_exit_code_win32_field(status.exit_code),
        service_specific_exit_code: spec_exit_code_specific_field(status.exit_code),
        check_point: status.checkpoint,
        wait_hint: spec_wait_hint_to_raw(status.wait_hint),
    }
}

impl ServiceStatus {
    /// Encode this snapshot into the raw wire record.
    pub fn to_raw(&self) -> (r: RawServiceStatus)
        ensures
            r == spec_status_to_raw(*self),
    {
        let mut raw_status = RawServiceStatus {
            service_type: self.service_type.to_raw(),
            current_state: self.current_state.to_raw(),
            controls_accepted: self.controls_accepted.to_raw(),
            win32_exit_code: 0,
            service_specific_exit_code: 0,
            check_point: self.checkpoint,
            wait_hint: 0,
        };
        self.exit_code.copy_to(&mut raw_status);
        raw_status.wait_hint = (self.wait_hint.millis % 0x1_0000_0000) as u32;
        raw_status
    }

    /// Decode a raw wire record into a snapshot.
    ///
    /// A service-type or run-state code outside the known enumerations is a
    /// hard decode error (fail closed); every field of a successful decode
    /// is the exact image of the corresponding wire field.
    pub fn from_raw(raw_status: RawServiceStatus) -> (r: Result<Self, ServiceError>)
        ensures
            match r {
                Ok(status) => {
                    &&& spec_service_type_from_raw(raw_status.service_type)
                        == Some(status.service_type)
                    &&& spec_state_from_raw(raw_status.current_state)
                        == Some(status.current_state)
                    &&& status.controls_accepted
                        == spec_accept_from_raw(raw_status.controls_accepted)
                    &&& status.exit_code == spec_exit_code_from_raw(
                        raw_status.win32_exit_code,
                        raw_status.service_specific_exit_code,
                    )
                    &&& status.checkpoint == raw_status.check_point
                    &&& status.wait_hint.millis == raw_status.wait_hint
                },
                Err(e) => match e {
                    ServiceError::InvalidServiceType(raw) => {
                        &&& raw == raw_status.service_type
                        &&& spec_service_type_from_raw(raw) is None
                    },
                    ServiceError::InvalidServiceState(raw) => {
                        &&& raw == raw_status.current_state
                        &&& spec_service_type_from_raw(raw_status.service_type) is Some
                        &&& spec_state_from_raw(raw) is None
                    },
                    _ => false,
                },
            },
    {
        let service_type = match ServiceType::from_raw(raw_status.service_type) {
            Ok(service_type) => service_type,
            Err(e) => {
                return Err(e);
            }
        };
        let current_state = match ServiceState::from_raw(raw_status.current_state) {
            Ok(current_state) => current_state,
            Err(e) => {
                return Err(e);
            }
        };
        Ok(ServiceStatus {
            service_type,
            current_state,
            controls_accepted: ServiceControlAccept::from_raw(raw_status.controls_accepted),
            exit_code: ServiceExitCode::from_raw_service_status(&raw_status),
            checkpoint: raw_status.check_point,
            wait_hint: WaitHint::from_millis(raw_status.wait_hint as u64),
        })
    }
}

/// Builder for a status snapshot. Every field must be supplied;
/// [`ServiceStatusBuilder::build`] validates the checkpoint rule before
/// the snapshot can reach the service control manager.
#[derive(Debug, Clone, Copy, PartialEq, Eq, Structural)]
pub struct ServiceStatusBuilder {
    pub service_type: Option<ServiceType>,
    pub current_state: Option<ServiceState>,
    pub controls_accepted: Option<ServiceControlAccept>,
    pub exit_code: Option<ServiceExitCode>,
    pub checkpoint: Option<u32>,
    pub wait_hint: Option<WaitHint>,
}

/// Validation failure raised by [`ServiceStatusBuilder::build`] when a
/// field was never supplied.
#[derive(Debug, Clone, Copy, PartialEq, Eq, Structural)]
pub enum StatusBuildError {
    /// A field of the snapshot was not set before building.
    MissingField,
    /// The supplied fields violate a validity rule of the snapshot.
    Invalid(ValidationError),
}

impl ServiceStatusBuilder {
    /// Start with no field supplied.
    pub fn new() -> (r: Self)
        ensures
            r == (ServiceStatusBuilder {
                service_type: None,
                current_state: None,
                controls_accepted: None,
                exit_code: None,
                checkpoint: None,
                wait_hint: None,
            }),
    {
        ServiceStatusBuilder {
            service_type: None,
            current_state: None,
            controls_accepted: None,
            exit_code: None,
            checkpoint: None,
            wait_hint: None,
        }
    }

    /// Supply the service type.
    pub fn service_type(self, value: ServiceType) -> (r: Self)
        ensures
            r == (ServiceStatusBuilder { service_type: Some(value), ..self }),
    {
        ServiceStatusBuilder { service_type: Some(value), ..self }
    }

    /// Supply the run state.
    pub fn current_state(self, value: ServiceState) -> (r: Self)
        ensures
            r == (ServiceStatusBuilder { current_state: Some(value), ..self }),
    {
        ServiceStatusBuilder { current_state: Some(value), ..self }
    }

    /// Supply the accepted-controls set.
    pub fn controls_accepted(self, value: ServiceControlAccept) -> (r: Self)
        ensures
            r == (ServiceStatusBuilder { controls_accepted: Some(value), ..self }),
    {
        ServiceStatusBuilder { controls_accepted: Some(value), ..self }
    }

    /// Supply the exit code.
    pub fn exit_code(self, value: ServiceExitCode) -> (r: Self)
        ensures
            r == (ServiceStatusBuilder { exit_code: Some(value), ..self }),
    {
        ServiceStatusBuilder { exit_code: Some(value), ..self }
    }

    /// Supply the checkpoint counter.
    pub fn checkpoint(self, value: u32) -> (r: Self)
        ensures
            r == (ServiceStatusBuilder { checkpoint: Some(value), ..self }),
    {
        ServiceStatusBuilder { checkpoint: Some(value), ..self }
    }

    /// Supply the wait hint.
    pub fn wait_hint(self, value: WaitHint) -> (r: Self)
        ensures
            r == (ServiceStatusBuilder { wait_hint: Some(value), ..self }),
    {
        ServiceStatusBuilder { wait_hint: Some(value), ..self }
    }

    /// Whether every field has been supplied.
    pub open spec fn spec_complete(self) -> bool {
        &&& self.service_type is Some
        &&& self.current_state is Some
        &&& self.controls_accepted is Some
        &&& self.exit_code is Some
        &&& self.checkpoint is Some
        &&& self.wait_hint is Some
    }

    /// Validate and construct the status snapshot.
    ///
    /// A nonzero checkpoint combined with a run state that has no pending
    /// start, stop, pause or continue operation is rejected before any
    /// call to the service control manager could be attempted.
    pub fn build(self) -> (r: Result<ServiceStatus, StatusBuildError>)
        ensures
            match r {
                Ok(status) => {
                    &&& self.spec_complete()
                    &&& self.service_type == Some(status.service_type)
                    &&& self.current_state == Some(status.current_state)
                    &&& self.controls_accepted == Some(status.controls_accepted)
                    &&& self.exit_code == Some(status.exit_code)
                    &&& self.checkpoint == Some(status.checkpoint)
                    &&& self.wait_hint == Some(status.wait_hint)
                    &&& spec_status_valid(status)
                },
                Err(e) => match e {
                    StatusBuildError::MissingField => !self.spec_complete(),
                    StatusBuildError::Invalid(validation) => {
                        &&& self.spec_complete()
                        &&& validation == ValidationError::CheckpointWithoutPendingState
                        &&& self.checkpoint matches Some(checkpoint) && checkpoint != 0
                        &&& self.current_state matches Some(state)
                            && !spec_state_is_pending(state)
                    },
                },
            },
    {
        match (
            self.service_type,
            self.current_state,
            self.controls_accepted,
            self.exit_code,
            self.checkpoint,
            self.wait_hint,
        ) {
            (
                Some(service_type),
                Some(current_state),
                Some(controls_accepted),
                Some(exit_code),
                Some(checkpoint),
                Some(wait_hint),
            ) => {
                if checkpoint != 0 && !current_state.is_pending() {
                    Err(StatusBuildError::Invalid(ValidationError::CheckpointWithoutPendingState))
                } else {
                    Ok(ServiceStatus {
                        service_type,
                        current_state,
                        controls_accepted,
                        exit_code,
                        checkpoint,
                        wait_hint,
                    })
                }
            }
            _ => Err(StatusBuildError::MissingField),
        }
    }
}

/// Description of a service entry: identity, policies, launch command
/// pieces and the optional run-as account.
///
/// Textual fields are wide strings: sequences of 16-bit code units, the
/// native string representation of the service control manager.
#[derive(Debug, Clone)]
pub struct ServiceInfo {
    /// Service name.
    pub name: Vec<u16>,
    /// Friendly service name.
    pub display_name: Vec<u16>,
    /// Type of the service.
    pub service_type: ServiceType,
    /// Start policy.
    pub start_type: ServiceStartType,
    /// Failure policy.
    pub error_control: ServiceErrorControl,
    /// Path to the service binary.
    pub executable_path: Vec<u16>,
    /// Launch arguments passed when the system starts the service, in
    /// order. These are not the arguments delivered to the service entry
    /// point.
    pub launch_arguments: Vec<Vec<u16>>,
    /// Account to run the service as; absence means the platform's system
    /// account.
    pub account_name: Option<Vec<u16>>,
    /// Password of the run-as account; for system accounts this is absent.
    pub account_password: Option<Vec<u16>>,
}

/// Every control-command wire code that decodes at all decodes to the
/// command that encodes back to it, and every command survives the
/// encode-decode cycle.
pub proof fn lemma_control_raw_round_trip()
    ensures
        forall|raw: u32|
            (#[trigger] spec_control_from_raw(raw)) matches Some(control)
                ==> spec_control_to_raw(control) == raw,
        forall|control: ServiceControl|
            spec_control_from_raw(#[trigger] spec_control_to_raw(control)) == Some(control),
{
}

} // verus!
