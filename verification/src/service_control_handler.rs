//! Control-handler bridge: registration of a control handler for a
//! running service, the status-report token it yields, the application's
//! shutdown handler, and the trampoline that turns a raw control code
//! into the handler's disposition.

use vstd::prelude::*;

use crate::database::{lemma_wf_after_entry_update, ServiceDatabase, ServiceEntry, ERROR_INVALID_HANDLE};
use crate::service::{
    spec_control_from_raw, ServiceControl, ServiceError, ServiceStatus,
};
use crate::widestring::{contains_nul, spec_contains_nul};

verus! {

/// Return code acknowledging a control event.
pub const NO_ERROR: u32 = 0;
/// Return code reporting a control event as not implemented.
pub const ERROR_CALL_NOT_IMPLEMENTED: u32 = 120;
/// Operating-system error code for a failed connection to the service
/// control dispatcher.
pub const ERROR_FAILED_SERVICE_CONTROLLER_CONNECT: u32 = 1063;

/// Errors raised when registering a control handler.
#[derive(Debug, Clone, Copy, PartialEq, Eq, Structural)]
pub enum HandlerError {
    /// The service name cannot be represented as a nul-terminated wide
    /// string.
    InvalidServiceName,
    /// The numeric operating-system code of a failed registration call.
    System(u32),
}

/// Disposition a control handler returns for a control event. Its meaning
/// depends on the event: acknowledgement or permission for `NoError`, a
/// refusal reason code for `Other`.
#[derive(Debug, Clone, Copy, PartialEq, Eq, Structural)]
pub enum ServiceControlHandlerResult {
    /// Acknowledge the event, or grant the permission in advanced events.
    NoError,
    /// The received event is not implemented.
    NotImplemented,
    /// Deny permission and return this reason code in advanced events.
    Other(u32),
}

/// Raw return code that a handler disposition is reported as.
pub open spec fn spec_handler_result_to_raw(result: ServiceControlHandlerResult) -> u32 {
    match result {
        ServiceControlHandlerResult::NoError => NO_ERROR,
        ServiceControlHandlerResult::NotImplemented => ERROR_CALL_NOT_IMPLEMENTED,
        ServiceControlHandlerResult::Other(code) => code,
    }
}

impl ServiceControlHandlerResult {
    /// Raw return code of this disposition.
    pub fn to_raw(&self) -> (r: u32)
        ensures
            r == spec_handler_result_to_raw(*self),
    {
        match *self {
            ServiceControlHandlerResult::NoError => NO_ERROR,
            ServiceControlHandlerResult::NotImplemented => ERROR_CALL_NOT_IMPLEMENTED,
            ServiceControlHandlerResult::Other(code) => code,
        }
    }
}

/// Status-report token of a registered service: the one way a running
/// service pushes a new status snapshot to the service control manager.
/// It is a freely copyable value whose validity is tied to the
/// registration, not to any local struct's lifetime.
#[derive(Debug, Clone, Copy, PartialEq, Eq, Structural)]
pub struct ServiceStatusHandle {
    /// Identity of the entry the registration refers to.
    pub service_id: u64,
}

impl ServiceStatusHandle {
    /// Report a new status snapshot for the service.
    ///
    /// The entry's reported status becomes exactly the given snapshot;
    /// fails only when the registration no longer refers to an entry.
    pub fn set_service_status(&self, db: &mut ServiceDatabase, service_status: ServiceStatus) -> (r:
        Result<(), ServiceError>)
        requires
            old(db).wf(),
        ensures
            final(db).wf(),
            match r {
                Ok(()) => {
                    &&& old(db).spec_contains_id(self.service_id)
                    &&& {
                        let index = old(db).spec_index_of_id(self.service_id);
                        &&& final(db).services@ == old(db).services@.update(index, ServiceEntry {
                            status: service_status,
                            ..old(db).services@[index]
                        })
                        &&& final(db).next_id == old(db).next_id
                    }
                },
                Err(e) => {
                    &&& !old(db).spec_contains_id(self.service_id)
                    &&& e == ServiceError::System(ERROR_INVALID_HANDLE)
                    &&& *final(db) == *old(db)
                },
            },
    {
        match db.find_by_id(self.service_id) {
            None => Err(ServiceError::System(ERROR_INVALID_HANDLE)),
            Some(index) => {
                let entry = &mut db.services[index];
                entry.status = service_status;
                proof {
                    lemma_wf_after_entry_update(
                        *old(db),
                        *db,
                        index as int,
                        db.services@[index as int],
                    );
                }
                Ok(())
            }
        }
    }
}

/// A registered control handler for one service: the bridge between the
/// service control manager's control events and the application handler.
///
/// Registration yields the status-report token exactly once. Instead of
/// smuggling a raw address through the dispatcher, the registration is an
/// explicit entry identity that the trampoline resolves on each event.
#[derive(Debug, Clone, Copy, PartialEq, Eq, Structural)]
pub struct ServiceControlHandler {
    /// Status-report token obtained at registration.
    pub status_handle: ServiceStatusHandle,
}

impl ServiceControlHandler {
    /// Register a control handler for the named service.
    ///
    /// Fails on a name holding a nul unit and on a name that is not
    /// registered in the database; on success the returned value carries
    /// the status-report token for the service's entry.
    pub fn new(db: &ServiceDatabase, service_name: &Vec<u16>) -> (r: Result<Self, HandlerError>)
        requires
            db.wf(),
        ensures
            match r {
                Ok(handler) => {
                    &&& !spec_contains_nul(service_name@)
                    &&& db.spec_contains_name(service_name@)
                    &&& handler.status_handle.service_id
                        == db.services@[db.spec_index_of_name(service_name@)].id
                },
                Err(e) => {
                    if spec_contains_nul(service_name@) {
                        e == HandlerError::InvalidServiceName
                    } else {
                        &&& !db.spec_contains_name(service_name@)
                        &&& e == HandlerError::System(ERROR_FAILED_SERVICE_CONTROLLER_CONNECT)
                    }
                },
            },
    {
        if contains_nul(service_name) {
            return Err(HandlerError::InvalidServiceName);
        }
        match db.find_by_name(service_name) {
            None => Err(HandlerError::System(ERROR_FAILED_SERVICE_CONTROLLER_CONNECT)),
            Some(index) => Ok(ServiceControlHandler {
                status_handle: ServiceStatusHandle { service_id: db.services[index].id },
            }),
        }
    }
}

/// The application's shutdown handler: acknowledges interrogation,
/// records a shutdown request on stop or shutdown, and reports every
/// other control as not implemented.
#[derive(Debug, Clone, Copy, PartialEq, Eq, Structural)]
pub struct ShutdownHandler {
    /// Whether a stop or shutdown control has been received.
    pub shutdown_requested: bool,
}

/// Disposition of the shutdown handler for a decoded control event, and
/// whether the event asks the application to shut down.
pub open spec fn spec_shutdown_disposition(control: ServiceControl) -> (
    ServiceControlHandlerResult,
    bool,
) {
    match control {
        ServiceControl::Interrogate => (ServiceControlHandlerResult::NoError, false),
        ServiceControl::Stop | ServiceControl::Shutdown => (
            ServiceControlHandlerResult::NoError,
            true,
        ),
        _ => (ServiceControlHandlerResult::NotImplemented, false),
    }
}

impl ShutdownHandler {
    /// A handler that has not yet been asked to shut down.
    pub fn new() -> (r: Self)
        ensures
            !r.shutdown_requested,
    {
        ShutdownHandler { shutdown_requested: false }
    }

    /// Handle one decoded control event.
    ///
    /// Interrogation is acknowledged without changing state; stop and
    /// shutdown record the shutdown request and are acknowledged, so the
    /// entry point can unblock and clean up after the handler returns;
    /// everything else is reported as not implemented.
    pub fn handle_event(&mut self, control_event: ServiceControl) -> (r:
        ServiceControlHandlerResult)
        ensures
            r == spec_shutdown_disposition(control_event).0,
            final(self).shutdown_requested == (old(self).shutdown_requested
                || spec_shutdown_disposition(control_event).1),
    {
        match control_event {
            ServiceControl::Interrogate => ServiceControlHandlerResult::NoError,
            ServiceControl::Stop | ServiceControl::Shutdown => {
                self.shutdown_requested = true;
                ServiceControlHandlerResult::NoError
            }
            _ => ServiceControlHandlerResult::NotImplemented,
        }
    }
}

/// Raw return code of the shutdown handler for a raw control code: the
/// value [`service_control_handler`] reports back for the event.
pub open spec fn spec_control_response(raw_control: u32) -> u32 {
    match spec_control_from_raw(raw_control) {
        Some(control) => spec_handler_result_to_raw(spec_shutdown_disposition(control).0),
        None => ERROR_CALL_NOT_IMPLEMENTED,
    }
}

/// Whether a raw control code asks the application to shut down.
pub open spec fn spec_requests_shutdown(raw_control: u32) -> bool {
    spec_control_from_raw(raw_control) == Some(ServiceControl::Stop)
        || spec_control_from_raw(raw_control) == Some(ServiceControl::Shutdown)
}

/// Trampoline invoked for every control event targeting the service.
///
/// The raw control code is decoded and the handler invoked with the
/// decoded command; its disposition is translated into the raw return
/// code the service control manager expects. A code outside the known
/// enumeration is never forwarded: it is reported as not implemented and
/// leaves the handler untouched.
pub fn service_control_handler(handler: &mut ShutdownHandler, raw_control: u32) -> (r: u32)
    ensures
        r == spec_control_response(raw_control),
        final(handler).shutdown_requested == (old(handler).shutdown_requested
            || spec_requests_shutdown(raw_control)),
{
    match ServiceControl::from_raw(raw_control) {
        Ok(control_event) => {
            let disposition = handler.handle_event(control_event);
            disposition.to_raw()
        }
        Err(_) => ERROR_CALL_NOT_IMPLEMENTED,
    }
}

} // verus!
