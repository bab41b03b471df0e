//! Model of the service control manager's database: the registered
//! service entries, their reported status, and the capability-checked
//! operations that manager and service handles perform against them.
//!
//! Handles are plain values carrying an entry identity and the rights
//! granted at open time; every operation takes the database explicitly and
//! fails exactly when the corresponding right was not requested, the
//! handle no longer refers to an entry, or the entry's state refuses the
//! operation. An entry marked for deletion is a distinct, observable
//! state: removal completes only once the entry is stopped and the last
//! handle to it is released.

use vstd::prelude::*;

use crate::service::{
    ServiceAccess, ServiceControl, ServiceControlAccept, ServiceError, ServiceErrorControl,
    ServiceExitCode, ServiceStartType, ServiceState, ServiceStatus, ServiceType, WaitHint,
};
use crate::widestring::wide_eq;

verus! {

/// Operating-system error code for a denied access request.
pub const ERROR_ACCESS_DENIED: u32 = 5;
/// Operating-system error code for a handle that no longer refers to an
/// entry.
pub const ERROR_INVALID_HANDLE: u32 = 6;
/// Operating-system error code for a control that cannot be sent through
/// the control interface.
pub const ERROR_INVALID_SERVICE_CONTROL: u32 = 1052;
/// Operating-system error code for a service operation that did not finish
/// within its deadline.
pub const ERROR_SERVICE_REQUEST_TIMEOUT: u32 = 1053;
/// Operating-system error code for starting a service that is not stopped.
pub const ERROR_SERVICE_ALREADY_RUNNING: u32 = 1056;
/// Operating-system error code for opening a service name that is not
/// registered.
pub const ERROR_SERVICE_DOES_NOT_EXIST: u32 = 1060;
/// Operating-system error code for a control refused in the service's
/// current state or absent from its accepted-controls set.
pub const ERROR_SERVICE_CANNOT_ACCEPT_CTRL: u32 = 1061;
/// Operating-system error code for controlling a service that is stopped.
pub const ERROR_SERVICE_NOT_ACTIVE: u32 = 1062;
/// Operating-system error code for a service entry already marked for
/// deletion.
pub const ERROR_SERVICE_MARKED_FOR_DELETE: u32 = 1072;
/// Operating-system error code for creating a service name that already
/// exists.
pub const ERROR_SERVICE_EXISTS: u32 = 1073;
/// Operating-system error code for a malformed name.
pub const ERROR_INVALID_NAME: u32 = 123;

/// One registered service entry: its configuration as created, the status
/// it currently reports, and the bookkeeping that governs its removal.
#[derive(Debug, Clone)]
pub struct ServiceEntry {
    /// Identity that open handles refer to; never reused within one
    /// database.
    pub id: u64,
    /// Service name, unique within the database.
    pub name: Vec<u16>,
    /// Friendly service name.
    pub display_name: Vec<u16>,
    /// Quoted launch command registered for the entry.
    pub launch_command: Vec<u16>,
    /// Start policy.
    pub start_type: ServiceStartType,
    /// Failure policy.
    pub error_control: ServiceErrorControl,
    /// Run-as account; absence means the platform's system account.
    pub account_name: Option<Vec<u16>>,
    /// Status the entry currently reports.
    pub status: ServiceStatus,
    /// Whether the entry has been marked for deletion. A marked entry is
    /// removed once it is stopped and its last open handle is released.
    pub marked_for_delete: bool,
    /// Number of handles currently open to the entry.
    pub open_handles: u64,
}

/// The service control manager's database of registered entries.
#[derive(Debug, Clone)]
pub struct ServiceDatabase {
    /// The registered entries.
    pub services: Vec<ServiceEntry>,
    /// Next entry identity to hand out.
    pub next_id: u64,
}

/// Status of a freshly created entry: stopped, accepting nothing,
/// reporting no error.
pub open spec fn spec_initial_status(service_type: ServiceType) -> ServiceStatus {
    ServiceStatus {
        service_type,
        current_state: ServiceState::Stopped,
        controls_accepted: ServiceControlAccept {
            netbind_change: false,
            param_change: false,
            pause_continue: false,
            preshutdown: false,
            shutdown: false,
            stop: false,
        },
        exit_code: ServiceExitCode::Win32(0),
        checkpoint: 0,
        wait_hint: WaitHint { millis: 0 },
    }
}

/// Build the status of a freshly created entry.
pub fn initial_status(service_type: ServiceType) -> (r: ServiceStatus)
    ensures
        r == spec_initial_status(service_type),
{
    ServiceStatus {
        service_type,
        current_state: ServiceState::Stopped,
        controls_accepted: ServiceControlAccept {
            netbind_change: false,
            param_change: false,
            pause_continue: false,
            preshutdown: false,
            shutdown: false,
            stop: false,
        },
        exit_code: ServiceExitCode::Win32(0),
        checkpoint: 0,
        wait_hint: WaitHint { millis: 0 },
    }
}

/// Run state after the service control manager lets a pending transition
/// complete.
pub open spec fn spec_advanced_state(state: ServiceState) -> ServiceState {
    match state {
        ServiceState::StartPending => ServiceState::Running,
        ServiceState::ContinuePending => ServiceState::Running,
        ServiceState::PausePending => ServiceState::Paused,
        ServiceState::StopPending => ServiceState::Stopped,
        other => other,
    }
}

impl ServiceDatabase {
    /// Well-formedness: names and identities are unique and identities
    /// stay below the next one to hand out.
    pub open spec fn wf(self) -> bool {
        &&& forall|i: int, j: int|
            0 <= i < j < self.services@.len()
                ==> self.services@[i].name@ != self.services@[j].name@
        &&& forall|i: int, j: int|
            0 <= i < j < self.services@.len()
                ==> self.services@[i].id != self.services@[j].id
        &&& forall|i: int|
            0 <= i < self.services@.len() ==> #[trigger] self.services@[i].id < self.next_id
    }

    /// Whether some entry carries the given name.
    pub open spec fn spec_contains_name(self, name: Seq<u16>) -> bool {
        exists|i: int| 0 <= i < self.services@.len() && self.services@[i].name@ == name
    }

    /// Position of the entry carrying the given name.
    pub open spec fn spec_index_of_name(self, name: Seq<u16>) -> int {
        choose|i: int| 0 <= i < self.services@.len() && self.services@[i].name@ == name
    }

    /// Whether some entry carries the given identity.
    pub open spec fn spec_contains_id(self, id: u64) -> bool {
        exists|i: int| 0 <= i < self.services@.len() && self.services@[i].id == id
    }

    /// Position of the entry carrying the given identity.
    pub open spec fn spec_index_of_id(self, id: u64) -> int {
        choose|i: int| 0 <= i < self.services@.len() && self.services@[i].id == id
    }

    /// An empty database.
    pub fn new() -> (r: Self)
        ensures
            r.services@.len() == 0,
            r.next_id == 0,
            r.wf(),
    {
        ServiceDatabase { services: Vec::new(), next_id: 0 }
    }

    /// Position of the entry with the given name, if any.
    pub fn find_by_name(&self, name: &Vec<u16>) -> (r: Option<usize>)
        requires
            self.wf(),
        ensures
            match r {
                Some(index) => {
                    &&& index < self.services@.len()
                    &&& self.services@[index as int].name@ == name@
                    &&& self.spec_contains_name(name@)
                    &&& index == self.spec_index_of_name(name@)
                },
                None => !self.spec_contains_name(name@),
            },
    {
        let mut index: usize = 0;
        while index < self.services.len()
            invariant
                self.wf(),
                index <= self.services@.len(),
                forall|i: int| 0 <= i < index ==> self.services@[i].name@ != name@,
            decreases self.services@.len() - index,
        {
            if wide_eq(&self.services[index].name, name) {
                proof {
                    let witness = self.spec_index_of_name(name@);
                    assert(0 <= witness < self.services@.len()
                        && self.services@[witness].name@ == name@);
                }
                return Some(index);
            }
            index = index + 1;
        }
        None
    }

    /// Position of the entry with the given identity, if any.
    pub fn find_by_id(&self, id: u64) -> (r: Option<usize>)
        requires
            self.wf(),
        ensures
            match r {
                Some(index) => {
                    &&& index < self.services@.len()
                    &&& self.services@[index as int].id == id
                    &&& self.spec_contains_id(id)
                    &&& index == self.spec_index_of_id(id)
                },
                None => !self.spec_contains_id(id),
            },
    {
        let mut index: usize = 0;
        while index < self.services.len()
            invariant
                self.wf(),
                index <= self.services@.len(),
                forall|i: int| 0 <= i < index ==> self.services@[i].id != id,
            decreases self.services@.len() - index,
        {
            if self.services[index].id == id {
                proof {
                    let witness = self.spec_index_of_id(id);
                    assert(0 <= witness < self.services@.len()
                        && self.services@[witness].id == id);
                }
                return Some(index);
            }
            index = index + 1;
        }
        None
    }

    /// Let every pending transition complete: the service control
    /// manager's passage of time. Start and continue operations end in
    /// the running state, a pause ends paused, a stop ends stopped, and
    /// each completed transition resets the checkpoint.
    pub fn advance_pending(&mut self)
        ensures
            final(self).next_id == old(self).next_id,
            final(self).services@.len() == old(self).services@.len(),
            forall|i: int|
                0 <= i < old(self).services@.len()
                    ==> #[trigger] final(self).services@[i] == (ServiceEntry {
                        status: ServiceStatus {
                            current_state: spec_advanced_state(
                                old(self).services@[i].status.current_state,
                            ),
                            checkpoint: 0,
                            ..old(self).services@[i].status
                        },
                        ..old(self).services@[i]
                    }),
            old(self).wf() ==> final(self).wf(),
    {
        let mut index: usize = 0;
        while index < self.services.len()
            invariant
                self.next_id == old(self).next_id,
                self.services@.len() == old(self).services@.len(),
                index <= self.services@.len(),
                forall|i: int|
                    index <= i < old(self).services@.len()
                        ==> #[trigger] self.services@[i] == old(self).services@[i],
                forall|i: int|
                    0 <= i < index
                        ==> #[trigger] self.services@[i] == (ServiceEntry {
                            status: ServiceStatus {
                                current_state: spec_advanced_state(
                                    old(self).services@[i].status.current_state,
                                ),
                                checkpoint: 0,
                                ..old(self).services@[i].status
                            },
                            ..old(self).services@[i]
                        }),
            decreases self.services@.len() - index,
        {
            let entry = &mut self.services[index];
            let advanced = match entry.status.current_state {
                ServiceState::StartPending => ServiceState::Running,
                ServiceState::ContinuePending => ServiceState::Running,
                ServiceState::PausePending => ServiceState::Paused,
                ServiceState::StopPending => ServiceState::Stopped,
                other => other,
            };
            entry.status.current_state = advanced;
            entry.status.checkpoint = 0;
            index = index + 1;
        }
        proof {
            if old(self).wf() {
                assert forall|i: int, j: int|
                    0 <= i < j < self.services@.len()
                        implies self.services@[i].name@ != self.services@[j].name@ by {
                    assert(self.services@[i].name == old(self).services@[i].name);
                    assert(self.services@[j].name == old(self).services@[j].name);
                }
            }
        }
    }
}

/// Replacing one entry with one that carries the same name and identity
/// preserves the database's well-formedness.
pub proof fn lemma_wf_after_entry_update(
    db_before: ServiceDatabase,
    db_after: ServiceDatabase,
    index: int,
    entry: ServiceEntry,
)
    requires
        db_before.wf(),
        0 <= index < db_before.services@.len(),
        db_after.services@ == db_before.services@.update(index, entry),
        db_after.next_id == db_before.next_id,
        entry.name@ == db_before.services@[index].name@,
        entry.id == db_before.services@[index].id,
    ensures
        db_after.wf(),
{
    assert forall|i: int, j: int|
        0 <= i < j < db_after.services@.len()
            implies db_after.services@[i].name@ != db_after.services@[j].name@ by {
        assert(db_after.services@[i].name@ == db_before.services@[i].name@);
        assert(db_after.services@[j].name@ == db_before.services@[j].name@);
    }
    assert forall|i: int, j: int|
        0 <= i < j < db_after.services@.len()
            implies db_after.services@[i].id != db_after.services@[j].id by {
        assert(db_after.services@[i].id == db_before.services@[i].id);
        assert(db_after.services@[j].id == db_before.services@[j].id);
    }
    assert forall|i: int|
        0 <= i < db_after.services@.len()
            implies #[trigger] db_after.services@[i].id < db_after.next_id by {
        assert(db_after.services@[i].id == db_before.services@[i].id);
    }
}

/// Accepted-controls set a service reports right after being asked to
/// start: it can be stopped and nothing else yet.
pub open spec fn spec_started_accept() -> ServiceControlAccept {
    ServiceControlAccept {
        netbind_change: false,
        param_change: false,
        pause_continue: false,
        preshutdown: false,
        shutdown: false,
        stop: true,
    }
}

/// Whether the handle right that a control command demands is present in
/// the granted set.
pub open spec fn spec_control_right_granted(access: ServiceAccess, command: ServiceControl) -> bool {
    match command {
        ServiceControl::Stop => access.stop,
        ServiceControl::Pause | ServiceControl::Continue => access.pause_continue,
        ServiceControl::Interrogate => access.interrogate,
        ServiceControl::ParamChange
        | ServiceControl::NetBindAdd
        | ServiceControl::NetBindDisable
        | ServiceControl::NetBindEnable
        | ServiceControl::NetBindRemove => access.pause_continue,
        ServiceControl::Shutdown | ServiceControl::Preshutdown => true,
    }
}

/// Outcome of sending a control command to an entry reporting the given
/// status, through a handle with the given rights: either the run state
/// after the command or the operating-system error code refusing it.
///
/// Shutdown and preshutdown are delivered by the system only and cannot
/// be sent; a stopped service accepts no command at all; every other
/// command is accepted exactly when the entry's accepted-controls set
/// lists it and the run state allows it.
pub open spec fn spec_control_outcome(
    status: ServiceStatus,
    access: ServiceAccess,
    command: ServiceControl,
) -> Result<ServiceState, u32> {
    if !spec_control_right_granted(access, command) {
        Err(ERROR_ACCESS_DENIED)
    } else if command == ServiceControl::Shutdown || command == ServiceControl::Preshutdown {
        Err(ERROR_INVALID_SERVICE_CONTROL)
    } else if status.current_state == ServiceState::Stopped {
        Err(ERROR_SERVICE_NOT_ACTIVE)
    } else {
        match command {
            ServiceControl::Stop => {
                if status.controls_accepted.stop {
                    Ok(ServiceState::StopPending)
                } else {
                    Err(ERROR_SERVICE_CANNOT_ACCEPT_CTRL)
                }
            },
            ServiceControl::Pause => {
                if status.controls_accepted.pause_continue
                    && status.current_state == ServiceState::Running {
                    Ok(ServiceState::PausePending)
                } else {
                    Err(ERROR_SERVICE_CANNOT_ACCEPT_CTRL)
                }
            },
            ServiceControl::Continue => {
                if status.controls_accepted.pause_continue
                    && status.current_state == ServiceState::Paused {
                    Ok(ServiceState::ContinuePending)
                } else {
                    Err(ERROR_SERVICE_CANNOT_ACCEPT_CTRL)
                }
            },
            ServiceControl::Interrogate => Ok(status.current_state),
            ServiceControl::ParamChange => {
                if status.controls_accepted.param_change
                    && status.current_state == ServiceState::Running {
                    Ok(status.current_state)
                } else {
                    Err(ERROR_SERVICE_CANNOT_ACCEPT_CTRL)
                }
            },
            ServiceControl::NetBindAdd
            | ServiceControl::NetBindDisable
            | ServiceControl::NetBindEnable
            | ServiceControl::NetBindRemove => {
                if status.controls_accepted.netbind_change
                    && status.current_state == ServiceState::Running {
                    Ok(status.current_state)
                } else {
                    Err(ERROR_SERVICE_CANNOT_ACCEPT_CTRL)
                }
            },
            _ => Err(ERROR_INVALID_SERVICE_CONTROL),
        }
    }
}

/// Handle to one service entry, scoped by the rights requested when it
/// was obtained. Operations through it succeed only on a database that
/// still holds its entry and only within those rights.
#[derive(Debug, Clone, Copy, PartialEq, Eq, Structural)]
pub struct Service {
    /// Identity of the entry the handle refers to.
    pub service_id: u64,
    /// Rights granted at open time.
    pub access: ServiceAccess,
}

impl Service {
    /// The current status snapshot of the service.
    ///
    /// Fails when the handle lacks the query-status right or no longer
    /// refers to an entry; never alters the database.
    pub fn query_status(&self, db: &ServiceDatabase) -> (r: Result<ServiceStatus, ServiceError>)
        requires
            db.wf(),
        ensures
            match r {
                Ok(status) => {
                    &&& db.spec_contains_id(self.service_id)
                    &&& self.access.query_status
                    &&& status == db.services@[db.spec_index_of_id(self.service_id)].status
                },
                Err(e) => {
                    if !db.spec_contains_id(self.service_id) {
                        e == ServiceError::System(ERROR_INVALID_HANDLE)
                    } else {
                        &&& !self.access.query_status
                        &&& e == ServiceError::System(ERROR_ACCESS_DENIED)
                    }
                },
            },
    {
        match db.find_by_id(self.service_id) {
            None => Err(ServiceError::System(ERROR_INVALID_HANDLE)),
            Some(index) => {
                if !self.access.query_status {
                    Err(ServiceError::System(ERROR_ACCESS_DENIED))
                } else {
                    Ok(db.services[index].status)
                }
            }
        }
    }

    /// Ask the service control manager to start the service.
    ///
    /// Fails when the handle lacks the start right or no longer refers to
    /// an entry, when the entry is marked for deletion, or when the
    /// service is not stopped. On success the entry reports the
    /// start-pending state and accepts the stop control.
    pub fn start(&self, db: &mut ServiceDatabase) -> (r: Result<(), ServiceError>)
        requires
            old(db).wf(),
        ensures
            final(db).wf(),
            match r {
                Ok(()) => {
                    &&& old(db).spec_contains_id(self.service_id)
                    &&& self.access.start
                    &&& {
                        let index = old(db).spec_index_of_id(self.service_id);
                        let entry = old(db).services@[index];
                        &&& !entry.marked_for_delete
                        &&& entry.status.current_state == ServiceState::Stopped
                        &&& final(db).services@ == old(db).services@.update(index, ServiceEntry {
                            status: ServiceStatus {
                                current_state: ServiceState::StartPending,
                                controls_accepted: spec_started_accept(),
                                checkpoint: 0,
                                ..entry.status
                            },
                            ..entry
                        })
                        &&& final(db).next_id == old(db).next_id
                    }
                },
                Err(e) => {
                    &&& *final(db) == *old(db)
                    &&& if !old(db).spec_contains_id(self.service_id) {
                        e == ServiceError::System(ERROR_INVALID_HANDLE)
                    } else if !self.access.start {
                        e == ServiceError::System(ERROR_ACCESS_DENIED)
                    } else {
                        let entry = old(db).services@[old(db).spec_index_of_id(self.service_id)];
                        if entry.marked_for_delete {
                            e == ServiceError::System(ERROR_SERVICE_MARKED_FOR_DELETE)
                        } else {
                            &&& entry.status.current_state != ServiceState::Stopped
                            &&& e == ServiceError::System(ERROR_SERVICE_ALREADY_RUNNING)
                        }
                    }
                },
            },
    {
        match db.find_by_id(self.service_id) {
            None => Err(ServiceError::System(ERROR_INVALID_HANDLE)),
            Some(index) => {
                if !self.access.start {
                    Err(ServiceError::System(ERROR_ACCESS_DENIED))
                } else if db.services[index].marked_for_delete {
                    Err(ServiceError::System(ERROR_SERVICE_MARKED_FOR_DELETE))
                } else if !matches!(db.services[index].status.current_state, ServiceState::Stopped) {
                    Err(ServiceError::System(ERROR_SERVICE_ALREADY_RUNNING))
                } else {
                    let entry = &mut db.services[index];
                    entry.status.current_state = ServiceState::StartPending;
                    entry.status.controls_accepted = ServiceControlAccept {
                        netbind_change: false,
                        param_change: false,
                        pause_continue: false,
                        preshutdown: false,
                        shutdown: false,
                        stop: true,
                    };
                    entry.status.checkpoint = 0;
                    proof {
                        lemma_wf_after_entry_update(
                            *old(db),
                            *db,
                            index as int,
                            db.services@[index as int],
                        );
                    }
                    Ok(())
                }
            }
        }
    }

    /// Send a control command to the service and return the status
    /// snapshot observed after the command.
    ///
    /// The outcome is exactly [`spec_control_outcome`] applied to the
    /// entry's reported status and the handle's rights; on refusal the
    /// database is unchanged, on acceptance only the run state and
    /// checkpoint of this entry change.
    pub fn send_control_command(&self, db: &mut ServiceDatabase, command: ServiceControl) -> (r:
        Result<ServiceStatus, ServiceError>)
        requires
            old(db).wf(),
        ensures
            final(db).wf(),
            match r {
                Ok(status) => {
                    &&& old(db).spec_contains_id(self.service_id)
                    &&& {
                        let index = old(db).spec_index_of_id(self.service_id);
                        let entry = old(db).services@[index];
                        &&& spec_control_outcome(entry.status, self.access, command)
                            == Ok::<ServiceState, u32>(status.current_state)
                        &&& status == (ServiceStatus {
                            current_state: status.current_state,
                            checkpoint: 0,
                            ..entry.status
                        })
                        &&& final(db).services@ == old(db).services@.update(index, ServiceEntry {
                            status,
                            ..entry
                        })
                        &&& final(db).next_id == old(db).next_id
                    }
                },
                Err(e) => {
                    &&& *final(db) == *old(db)
                    &&& if !old(db).spec_contains_id(self.service_id) {
                        e == ServiceError::System(ERROR_INVALID_HANDLE)
                    } else {
                        let entry = old(db).services@[old(db).spec_index_of_id(self.service_id)];
                        e matches ServiceError::System(code)
                            && spec_control_outcome(entry.status, self.access, command)
                            == Err::<ServiceState, u32>(code)
                    }
                },
            },
    {
        match db.find_by_id(self.service_id) {
            None => Err(ServiceError::System(ERROR_INVALID_HANDLE)),
            Some(index) => {
                let status = db.services[index].status;
                let new_state = match control_outcome(status, self.access, command) {
                    Err(code) => {
                        return Err(ServiceError::System(code));
                    }
                    Ok(new_state) => new_state,
                };
                let entry = &mut db.services[index];
                entry.status.current_state = new_state;
                entry.status.checkpoint = 0;
                let observed = entry.status;
                proof {
                    lemma_wf_after_entry_update(
                        *old(db),
                        *db,
                        index as int,
                        db.services@[index as int],
                    );
                }
                Ok(observed)
            }
        }
    }

    /// Ask the service to stop and return the status observed after the
    /// command.
    pub fn stop(&self, db: &mut ServiceDatabase) -> (r: Result<ServiceStatus, ServiceError>)
        requires
            old(db).wf(),
        ensures
            final(db).wf(),
            spec_send_control_result(*old(db), *final(db), *self, ServiceControl::Stop, r),
    {
        self.send_control_command(db, ServiceControl::Stop)
    }

    /// Mark the service entry for deletion.
    ///
    /// A marked entry remains observable until it is stopped and its last
    /// handle is released; marking an already marked entry fails rather
    /// than silently succeeding.
    pub fn delete(&self, db: &mut ServiceDatabase) -> (r: Result<(), ServiceError>)
        requires
            old(db).wf(),
        ensures
            final(db).wf(),
            match r {
                Ok(()) => {
                    &&& old(db).spec_contains_id(self.service_id)
                    &&& self.access.delete
                    &&& {
                        let index = old(db).spec_index_of_id(self.service_id);
                        let entry = old(db).services@[index];
                        &&& !entry.marked_for_delete
                        &&& final(db).services@ == old(db).services@.update(index, ServiceEntry {
                            marked_for_delete: true,
                            ..entry
                        })
                        &&& final(db).next_id == old(db).next_id
                    }
                },
                Err(e) => {
                    &&& *final(db) == *old(db)
                    &&& if !old(db).spec_contains_id(self.service_id) {
                        e == ServiceError::System(ERROR_INVALID_HANDLE)
                    } else if !self.access.delete {
                        e == ServiceError::System(ERROR_ACCESS_DENIED)
                    } else {
                        &&& old(db).services@[old(db).spec_index_of_id(
                            self.service_id,
                        )].marked_for_delete
                        &&& e == ServiceError::System(ERROR_SERVICE_MARKED_FOR_DELETE)
                    }
                },
            },
    {
        match db.find_by_id(self.service_id) {
            None => Err(ServiceError::System(ERROR_INVALID_HANDLE)),
            Some(index) => {
                if !self.access.delete {
                    Err(ServiceError::System(ERROR_ACCESS_DENIED))
                } else if db.services[index].marked_for_delete {
                    Err(ServiceError::System(ERROR_SERVICE_MARKED_FOR_DELETE))
                } else {
                    let entry = &mut db.services[index];
                    entry.marked_for_delete = true;
                    proof {
                        lemma_wf_after_entry_update(
                            *old(db),
                            *db,
                            index as int,
                            db.services@[index as int],
                        );
                    }
                    Ok(())
                }
            }
        }
    }

    /// Release the handle.
    ///
    /// The entry's handle count drops by one; an entry marked for
    /// deletion whose last handle this was, and which is stopped, is
    /// removed from the database at this point, completing the deletion.
    pub fn close(self, db: &mut ServiceDatabase)
        requires
            old(db).wf(),
        ensures
            final(db).wf(),
            final(db).next_id == old(db).next_id,
            if !old(db).spec_contains_id(self.service_id) {
                *final(db) == *old(db)
            } else {
                let index = old(db).spec_index_of_id(self.service_id);
                let entry = old(db).services@[index];
                let remaining = if entry.open_handles > 0 {
                    (entry.open_handles - 1) as u64
                } else {
                    0u64
                };
                if entry.marked_for_delete && remaining == 0
                    && entry.status.current_state == ServiceState::Stopped {
                    final(db).services@ == old(db).services@.remove(index)
                } else {
                    final(db).services@ == old(db).services@.update(index, ServiceEntry {
                        open_handles: remaining,
                        ..entry
                    })
                }
            },
    {
        match db.find_by_id(self.service_id) {
            None => (),
            Some(index) => {
                let handles = db.services[index].open_handles;
                let remaining: u64 = if handles > 0 { handles - 1 } else { 0 };
                let removable = db.services[index].marked_for_delete && remaining == 0
                    && matches!(db.services[index].status.current_state, ServiceState::Stopped);
                if removable {
                    let _removed = db.services.remove(index);
                    proof {
                        assert forall|i: int, j: int|
                            0 <= i < j < db.services@.len()
                                implies db.services@[i].name@ != db.services@[j].name@ by {
                            let before_i = if i < index as int { i } else { i + 1 };
                            let before_j = if j < index as int { j } else { j + 1 };
                            assert(db.services@[i] == old(db).services@[before_i]);
                            assert(db.services@[j] == old(db).services@[before_j]);
                        }
                        assert forall|i: int, j: int|
                            0 <= i < j < db.services@.len()
                                implies db.services@[i].id != db.services@[j].id by {
                            let before_i = if i < index as int { i } else { i + 1 };
                            let before_j = if j < index as int { j } else { j + 1 };
                            assert(db.services@[i] == old(db).services@[before_i]);
                            assert(db.services@[j] == old(db).services@[before_j]);
                        }
                        assert forall|i: int|
                            0 <= i < db.services@.len()
                                implies #[trigger] db.services@[i].id < db.next_id by {
                            let before_i = if i < index as int { i } else { i + 1 };
                            assert(db.services@[i] == old(db).services@[before_i]);
                        }
                    }
                } else {
                    let entry = &mut db.services[index];
                    entry.open_handles = remaining;
                    proof {
                        lemma_wf_after_entry_update(
                            *old(db),
                            *db,
                            index as int,
                            db.services@[index as int],
                        );
                    }
                }
            }
        }
    }
}

/// Relation that a completed send-control call leaves between the old and
/// the new database, the handle, the command and the result: the exact
/// contract of [`Service::send_control_command`], packaged so callers
/// forwarding the call can state it once.
pub open spec fn spec_send_control_result(
    db_before: ServiceDatabase,
    db_after: ServiceDatabase,
    service: Service,
    command: ServiceControl,
    r: Result<ServiceStatus, ServiceError>,
) -> bool {
    match r {
        Ok(status) => {
            &&& db_before.spec_contains_id(service.service_id)
            &&& {
                let index = db_before.spec_index_of_id(service.service_id);
                let entry = db_before.services@[index];
                &&& spec_control_outcome(entry.status, service.access, command)
                    == Ok::<ServiceState, u32>(status.current_state)
                &&& status == (ServiceStatus {
                    current_state: status.current_state,
                    checkpoint: 0,
                    ..entry.status
                })
                &&& db_after.services@ == db_before.services@.update(index, ServiceEntry {
                    status,
                    ..entry
                })
                &&& db_after.next_id == db_before.next_id
            }
        },
        Err(e) => {
            &&& db_after == db_before
            &&& if !db_before.spec_contains_id(service.service_id) {
                e == ServiceError::System(ERROR_INVALID_HANDLE)
            } else {
                let entry = db_before.services@[db_before.spec_index_of_id(service.service_id)];
                e matches ServiceError::System(code)
                    && spec_control_outcome(entry.status, service.access, command)
                    == Err::<ServiceState, u32>(code)
            }
        },
    }
}

/// Executable twin of [`spec_control_outcome`].
fn control_outcome(
    status: ServiceStatus,
    access: ServiceAccess,
    command: ServiceControl,
) -> (r: Result<ServiceState, u32>)
    ensures
        r == spec_control_outcome(status, access, command),
{
    let granted = match command {
        ServiceControl::Stop => access.stop,
        ServiceControl::Pause | ServiceControl::Continue => access.pause_continue,
        ServiceControl::Interrogate => access.interrogate,
        ServiceControl::ParamChange
        | ServiceControl::NetBindAdd
        | ServiceControl::NetBindDisable
        | ServiceControl::NetBindEnable
        | ServiceControl::NetBindRemove => access.pause_continue,
        ServiceControl::Shutdown | ServiceControl::Preshutdown => true,
    };
    if !granted {
        return Err(ERROR_ACCESS_DENIED);
    }
    if matches!(command, ServiceControl::Shutdown) || matches!(command, ServiceControl::Preshutdown) {
        return Err(ERROR_INVALID_SERVICE_CONTROL);
    }
    if matches!(status.current_state, ServiceState::Stopped) {
        return Err(ERROR_SERVICE_NOT_ACTIVE);
    }
    match command {
        ServiceControl::Stop => {
            if status.controls_accepted.stop {
                Ok(ServiceState::StopPending)
            } else {
                Err(ERROR_SERVICE_CANNOT_ACCEPT_CTRL)
            }
        },
        ServiceControl::Pause => {
            if status.controls_accepted.pause_continue
                && matches!(status.current_state, ServiceState::Running) {
                Ok(ServiceState::PausePending)
            } else {
                Err(ERROR_SERVICE_CANNOT_ACCEPT_CTRL)
            }
        },
        ServiceControl::Continue => {
            if status.controls_accepted.pause_continue
                && matches!(status.current_state, ServiceState::Paused) {
                Ok(ServiceState::ContinuePending)
            } else {
                Err(ERROR_SERVICE_CANNOT_ACCEPT_CTRL)
            }
        },
        ServiceControl::Interrogate => Ok(status.current_state),
        ServiceControl::ParamChange => {
            if status.controls_accepted.param_change
                && matches!(status.current_state, ServiceState::Running) {
                Ok(status.current_state)
            } else {
                Err(ERROR_SERVICE_CANNOT_ACCEPT_CTRL)
            }
        },
        ServiceControl::NetBindAdd
        | ServiceControl::NetBindDisable
        | ServiceControl::NetBindEnable
        | ServiceControl::NetBindRemove => {
            if status.controls_accepted.netbind_change
                && matches!(status.current_state, ServiceState::Running) {
                Ok(status.current_state)
            } else {
                Err(ERROR_SERVICE_CANNOT_ACCEPT_CTRL)
            }
        },
        _ => Err(ERROR_INVALID_SERVICE_CONTROL),
    }
}

} // verus!
