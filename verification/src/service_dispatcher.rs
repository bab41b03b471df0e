//! Dispatcher bootstrap: bounded decoding of the raw launch arguments the
//! service control manager delivers to the service entry point, and the
//! entry point's own flow — register the control handler, answer each
//! delivered control event, and report the stopped state once a stop or
//! shutdown event has been acknowledged.
//!
//! The control events the operating system would deliver on its own
//! thread are taken here as an explicit sequence, so the whole decision
//! path from raw code to acknowledged shutdown is one verified function.

use vstd::prelude::*;

use crate::database::{ServiceDatabase, ServiceEntry};
use crate::service::{
    ServiceControlAccept, ServiceControlAcceptBuilder, ServiceExitCode, ServiceState,
    ServiceStatus, ServiceStatusBuilder, ServiceType, WaitHint,
};
use crate::service_control_handler::{
    service_control_handler, spec_control_response, spec_requests_shutdown, HandlerError,
    ServiceControlHandler, ShutdownHandler,
};
use crate::widestring::{from_raw_wide_string, spec_contains_nul};

verus! {

/// Decode the raw argument buffers delivered at service start, applying
/// the explicit per-string length bound: each argument is the longest
/// nul-free prefix of its buffer within the bound, so a missing
/// terminator yields the truncated value rather than an unbounded scan.
pub fn parse_raw_arguments(raw_argv: &Vec<Vec<u16>>, max_argument_length: usize) -> (r: Vec<
    Vec<u16>,
>)
    ensures
        r@.len() == raw_argv@.len(),
        forall|i: int|
            0 <= i < r@.len() ==> {
                let argument = (#[trigger] r@[i])@;
                let raw = raw_argv@[i]@;
                &&& argument.len() <= max_argument_length
                &&& argument.len() <= raw.len()
                &&& argument == raw.take(argument.len() as int)
                &&& (forall|j: int| 0 <= j < argument.len() ==> raw[j] != 0)
                &&& (argument.len() < max_argument_length && argument.len() < raw.len()
                    ==> raw[argument.len() as int] == 0)
            },
{
    let mut arguments: Vec<Vec<u16>> = Vec::new();
    let mut index: usize = 0;
    while index < raw_argv.len()
        invariant
            index <= raw_argv@.len(),
            arguments@.len() == index,
            forall|i: int|
                0 <= i < index ==> {
                    let argument = (#[trigger] arguments@[i])@;
                    let raw = raw_argv@[i]@;
                    &&& argument.len() <= max_argument_length
                    &&& argument.len() <= raw.len()
                    &&& argument == raw.take(argument.len() as int)
                    &&& (forall|j: int| 0 <= j < argument.len() ==> raw[j] != 0)
                    &&& (argument.len() < max_argument_length && argument.len() < raw.len()
                        ==> raw[argument.len() as int] == 0)
                },
        decreases raw_argv@.len() - index,
    {
        let argument = from_raw_wide_string(&raw_argv[index], max_argument_length);
        arguments.push(argument);
        index = index + 1;
    }
    arguments
}

/// Status a service reports as it exits: stopped, accepting nothing,
/// with no error to report.
pub open spec fn spec_exit_stopped_status() -> ServiceStatus {
    ServiceStatus {
        service_type: ServiceType::OwnProcess,
        current_state: ServiceState::Stopped,
        controls_accepted: ServiceControlAccept {
            netbind_change: false,
            param_change: false,
            pause_continue: false,
            preshutdown: false,
            shutdown: false,
            stop: false,
        },
        exit_code: ServiceExitCode::Win32(0),
        checkpoint: 0,
        wait_hint: WaitHint { millis: 0 },
    }
}

/// What one run of the service entry point did: the raw return code
/// reported for each control event it was delivered, and whether a stop
/// or shutdown event released it.
#[derive(Debug, Clone)]
pub struct ServiceMainOutcome {
    /// Raw return code reported for each delivered control event, in
    /// order, up to and including the first stop or shutdown.
    pub responses: Vec<u32>,
    /// Whether a stop or shutdown event was received and acknowledged.
    pub shutdown_requested: bool,
}

/// The service entry point's flow, with the operating system's control
/// deliveries as an explicit sequence.
///
/// A control handler is registered for the named service; each delivered
/// raw control code is decoded and answered through the handler, in
/// order, stopping after the first stop or shutdown event; if one was
/// received, the service acknowledges it by reporting the stopped state
/// through the status-report token before returning. Registration fails
/// exactly as [`ServiceControlHandler::new`] does, and then nothing is
/// answered and nothing changes.
#[verifier::loop_isolation(false)]
pub fn handle_service_main(
    db: &mut ServiceDatabase,
    service_name: &Vec<u16>,
    raw_controls: &Vec<u32>,
) -> (r: Result<ServiceMainOutcome, HandlerError>)
    requires
        old(db).wf(),
    ensures
        final(db).wf(),
        match r {
            Ok(outcome) => {
                &&& !spec_contains_nul(service_name@)
                &&& old(db).spec_contains_name(service_name@)
                &&& outcome.responses@.len() <= raw_controls@.len()
                &&& forall|i: int|
                    0 <= i < outcome.responses@.len()
                        ==> outcome.responses@[i] == spec_control_response(raw_controls@[i])
                &&& forall|i: int|
                    0 <= i < outcome.responses@.len() - 1
                        ==> !spec_requests_shutdown(raw_controls@[i])
                &&& outcome.shutdown_requested == (outcome.responses@.len() > 0
                    && spec_requests_shutdown(raw_controls@[outcome.responses@.len() - 1]))
                &&& !outcome.shutdown_requested ==> outcome.responses@.len() == raw_controls@.len()
                &&& if outcome.shutdown_requested {
                    let index = old(db).spec_index_of_name(service_name@);
                    &&& final(db).services@ == old(db).services@.update(index, ServiceEntry {
                        status: spec_exit_stopped_status(),
                        ..old(db).services@[index]
                    })
                    &&& final(db).next_id == old(db).next_id
                } else {
                    *final(db) == *old(db)
                }
            },
            Err(e) => {
                &&& *final(db) == *old(db)
                &&& if spec_contains_nul(service_name@) {
                    e == HandlerError::InvalidServiceName
                } else {
                    &&& !old(db).spec_contains_name(service_name@)
                    &&& e matches HandlerError::System(_)
                }
            },
        },
{
    let registration = match ServiceControlHandler::new(db, service_name) {
        Ok(registration) => registration,
        Err(e) => {
            return Err(e);
        }
    };
    let mut handler = ShutdownHandler::new();
    let mut responses: Vec<u32> = Vec::new();
    let mut index: usize = 0;
    while index < raw_controls.len() && !handler.shutdown_requested
        invariant
            index <= raw_controls@.len(),
            responses@.len() == index,
            forall|i: int|
                0 <= i < index ==> responses@[i] == spec_control_response(raw_controls@[i]),
            forall|i: int| 0 <= i < index - 1 ==> !spec_requests_shutdown(raw_controls@[i]),
            handler.shutdown_requested == (index > 0 && spec_requests_shutdown(
                raw_controls@[index - 1],
            )),
        decreases raw_controls@.len() - index,
    {
        let response = service_control_handler(&mut handler, raw_controls[index]);
        responses.push(response);
        index = index + 1;
    }
    let shutdown_requested = handler.shutdown_requested;
    if shutdown_requested {
        let accepted = match ServiceControlAcceptBuilder::new().build() {
            Ok(accepted) => accepted,
            Err(_) => {
                proof {
                    assert(false);
                }
                return vstd::pervasive::unreached();
            }
        };
        let status = match ServiceStatusBuilder::new()
            .service_type(ServiceType::OwnProcess)
            .current_state(ServiceState::Stopped)
            .controls_accepted(accepted)
            .exit_code(ServiceExitCode::Win32(0))
            .checkpoint(0)
            .wait_hint(WaitHint::from_millis(0))
            .build() {
            Ok(status) => status,
            Err(_) => {
                proof {
                    assert(false);
                }
                return vstd::pervasive::unreached();
            }
        };
        assert(status == spec_exit_stopped_status());
        proof {
            let name_index = old(db).spec_index_of_name(service_name@);
            assert(db.services@[name_index].id == registration.status_handle.service_id);
            assert(db.spec_contains_id(registration.status_handle.service_id));
        }
        match registration.status_handle.set_service_status(db, status) {
            Ok(()) => {
                proof {
                    let name_index = old(db).spec_index_of_name(service_name@);
                    let id_index = old(db).spec_index_of_id(
                        registration.status_handle.service_id,
                    );
                    if id_index != name_index {
                        assert(old(db).services@[id_index].id
                            != old(db).services@[name_index].id);
                    }
                }
            }
            Err(_) => {
                proof {
                    assert(false);
                }
            }
        }
    }
    Ok(ServiceMainOutcome { responses, shutdown_requested })
}

/// Start the service dispatcher for the named service: decode the raw
/// launch arguments under the given bound, then run the entry point with
/// the delivered control events, blocking the caller for that whole
/// service lifetime.
///
/// Returns the decoded arguments next to what the entry point did;
/// fails exactly as the entry point's registration does.
pub fn start_dispatcher(
    db: &mut ServiceDatabase,
    service_name: &Vec<u16>,
    raw_argv: &Vec<Vec<u16>>,
    max_argument_length: usize,
    raw_controls: &Vec<u32>,
) -> (r: Result<(Vec<Vec<u16>>, ServiceMainOutcome), HandlerError>)
    requires
        old(db).wf(),
    ensures
        final(db).wf(),
        match r {
            Ok((arguments, outcome)) => {
                &&& !spec_contains_nul(service_name@)
                &&& old(db).spec_contains_name(service_name@)
                &&& arguments@.len() == raw_argv@.len()
                &&& forall|i: int|
                    0 <= i < arguments@.len() ==> {
                        let argument = (#[trigger] arguments@[i])@;
                        let raw = raw_argv@[i]@;
                        &&& argument.len() <= max_argument_length
                        &&& argument.len() <= raw.len()
                        &&& argument == raw.take(argument.len() as int)
                        &&& (forall|j: int| 0 <= j < argument.len() ==> raw[j] != 0)
                    }
                &&& outcome.responses@.len() <= raw_controls@.len()
                &&& forall|i: int|
                    0 <= i < outcome.responses@.len()
                        ==> outcome.responses@[i] == spec_control_response(raw_controls@[i])
                &&& forall|i: int|
                    0 <= i < outcome.responses@.len() - 1
                        ==> !spec_requests_shutdown(raw_controls@[i])
                &&& outcome.shutdown_requested == (outcome.responses@.len() > 0
                    && spec_requests_shutdown(raw_controls@[outcome.responses@.len() - 1]))
                &&& !outcome.shutdown_requested ==> outcome.responses@.len() == raw_controls@.len()
                &&& if outcome.shutdown_requested {
                    let index = old(db).spec_index_of_name(service_name@);
                    &&& final(db).services@ == old(db).services@.update(index, ServiceEntry {
                        status: spec_exit_stopped_status(),
                        ..old(db).services@[index]
                    })
                    &&& final(db).next_id == old(db).next_id
                } else {
                    *final(db) == *old(db)
                }
            },
            Err(e) => {
                &&& *final(db) == *old(db)
                &&& if spec_contains_nul(service_name@) {
                    e == HandlerError::InvalidServiceName
                } else {
                    &&& !old(db).spec_contains_name(service_name@)
                    &&& e matches HandlerError::System(_)
                }
            },
        },
{
    let arguments = parse_raw_arguments(raw_argv, max_argument_length);
    match handle_service_main(db, service_name, raw_controls) {
        Ok(outcome) => Ok((arguments, outcome)),
        Err(e) => Err(e),
    }
}

} // verus!
