//! The service manager: a connection to the service control manager's
//! database, scoped by requested rights, through which service entries
//! are created and opened.

use vstd::prelude::*;

use crate::database::{
    lemma_wf_after_entry_update, Service, ServiceDatabase, ServiceEntry, ERROR_ACCESS_DENIED,
    ERROR_INVALID_NAME, ERROR_SERVICE_CANNOT_ACCEPT_CTRL, ERROR_SERVICE_DOES_NOT_EXIST,
    ERROR_SERVICE_EXISTS, ERROR_SERVICE_MARKED_FOR_DELETE, ERROR_SERVICE_REQUEST_TIMEOUT,
    spec_initial_status,
};
use crate::scmanager::{SC_MANAGER_CONNECT, SC_MANAGER_CREATE_SERVICE, SC_MANAGER_ENUMERATE_SERVICE};
use crate::service::{ServiceAccess, ServiceControl, ServiceError, ServiceInfo, ServiceState};
use crate::shell_escape::{escape, spec_escape, SPACE};
use crate::widestring::{append_wide, clone_wide, contains_nul, spec_contains_nul};

verus! {

/// Capability flags requested when connecting to the service control
/// manager.
#[derive(Debug, Clone, Copy, PartialEq, Eq, Structural)]
pub struct ServiceManagerAccess {
    /// Can connect and open existing services.
    pub connect: bool,
    /// Can create services.
    pub create_service: bool,
    /// Can enumerate services.
    pub enumerate_service: bool,
}

/// Bit mask that a manager access request is transmitted as.
pub open spec fn spec_manager_access_bits(access: ServiceManagerAccess) -> u32 {
    (if access.connect { SC_MANAGER_CONNECT } else { 0u32 })
        | (if access.create_service { SC_MANAGER_CREATE_SERVICE } else { 0u32 })
        | (if access.enumerate_service { SC_MANAGER_ENUMERATE_SERVICE } else { 0u32 })
}

impl ServiceManagerAccess {
    /// Bit mask of the requested rights.
    pub fn bits(&self) -> (r: u32)
        ensures
            r == spec_manager_access_bits(*self),
    {
        let connect_bit: u32 = if self.connect { SC_MANAGER_CONNECT } else { 0 };
        let create_bit: u32 = if self.create_service { SC_MANAGER_CREATE_SERVICE } else { 0 };
        let enumerate_bit: u32 = if self.enumerate_service {
            SC_MANAGER_ENUMERATE_SERVICE
        } else {
            0
        };
        connect_bit | create_bit | enumerate_bit
    }
}

/// Errors raised by service manager operations: one variant per textual
/// field that cannot be represented as a nul-terminated wide string, and
/// the numeric operating-system code of a failed call.
#[derive(Debug, Clone, Copy, PartialEq, Eq, Structural)]
pub enum ServiceManagerError {
    InvalidAccountName,
    InvalidAccountPassword,
    InvalidDisplayName,
    InvalidDatabaseName,
    InvalidExecutablePath,
    InvalidLaunchArgument,
    InvalidMachineName,
    InvalidServiceName,
    System(u32),
}

/// The launch arguments of a command line, each quoted and preceded by a
/// separating space, in order.
pub open spec fn spec_launch_command_args(args: Seq<Vec<u16>>) -> Seq<u16>
    decreases args.len(),
{
    if args.len() == 0 {
        Seq::empty()
    } else {
        spec_launch_command_args(args.drop_last()) + seq![SPACE] + spec_escape(args.last()@)
    }
}

/// The full launch command registered for a service: the quoted
/// executable path followed by each quoted launch argument, separated by
/// single spaces, so that every piece survives re-tokenization by the
/// target platform's standard command-line parser.
pub open spec fn spec_launch_command(executable_path: Seq<u16>, args: Seq<Vec<u16>>) -> Seq<u16> {
    spec_escape(executable_path) + spec_launch_command_args(args)
}

/// Build the launch command of a service description.
fn build_launch_command(service_info: &ServiceInfo) -> (r: Vec<u16>)
    ensures
        r@ == spec_launch_command(service_info.executable_path@, service_info.launch_arguments@),
{
    let mut command = escape(&service_info.executable_path);
    let mut index: usize = 0;
    proof {
        assert(service_info.launch_arguments@.take(0) =~= Seq::<Vec<u16>>::empty());
        assert(command@ =~= spec_escape(service_info.executable_path@)
            + spec_launch_command_args(service_info.launch_arguments@.take(0)));
    }
    while index < service_info.launch_arguments.len()
        invariant
            index <= service_info.launch_arguments@.len(),
            command@ == spec_escape(service_info.executable_path@)
                + spec_launch_command_args(service_info.launch_arguments@.take(index as int)),
        decreases service_info.launch_arguments@.len() - index,
    {
        command.push(SPACE);
        let escaped_value = escape(&service_info.launch_arguments[index]);
        append_wide(&mut command, &escaped_value);
        proof {
            let prefix = service_info.launch_arguments@.take(index + 1 as int);
            assert(prefix.drop_last() =~= service_info.launch_arguments@.take(index as int));
            assert(prefix.last() == service_info.launch_arguments@[index as int]);
            assert(command@ =~= spec_escape(service_info.executable_path@)
                + spec_launch_command_args(prefix));
        }
        index = index + 1;
    }
    proof {
        assert(service_info.launch_arguments@.take(service_info.launch_arguments@.len() as int)
            =~= service_info.launch_arguments@);
    }
    command
}

/// Whether some launch argument holds an interior nul unit.
pub open spec fn spec_some_argument_has_nul(args: Seq<Vec<u16>>) -> bool {
    exists|i: int| 0 <= i < args.len() && spec_contains_nul(args[i]@)
}

/// Outcome of creating a service entry from the given description through
/// a manager holding the given rights against the given database: `Ok`
/// exactly when every textual field is nul-free, the create right was
/// requested, and the name is not yet registered; otherwise the specific
/// error, checked in that order.
pub open spec fn spec_create_outcome(
    access: ServiceManagerAccess,
    db: ServiceDatabase,
    info: ServiceInfo,
) -> Result<(), ServiceManagerError> {
    if spec_contains_nul(info.name@) {
        Err(ServiceManagerError::InvalidServiceName)
    } else if spec_contains_nul(info.display_name@) {
        Err(ServiceManagerError::InvalidDisplayName)
    } else if info.account_name matches Some(account) && spec_contains_nul(account@) {
        Err(ServiceManagerError::InvalidAccountName)
    } else if info.account_password matches Some(password) && spec_contains_nul(password@) {
        Err(ServiceManagerError::InvalidAccountPassword)
    } else if spec_contains_nul(info.executable_path@) {
        Err(ServiceManagerError::InvalidExecutablePath)
    } else if spec_some_argument_has_nul(info.launch_arguments@) {
        Err(ServiceManagerError::InvalidLaunchArgument)
    } else if !access.create_service {
        Err(ServiceManagerError::System(ERROR_ACCESS_DENIED))
    } else if db.spec_contains_name(info.name@) {
        Err(ServiceManagerError::System(ERROR_SERVICE_EXISTS))
    } else {
        Ok(())
    }
}

/// Whether a database entry is the image of a service description
/// registered under the given identity: freshly stopped, marked by
/// nothing, its launch command quoted from the description, and one
/// handle open on it.
pub open spec fn spec_entry_matches_info(entry: ServiceEntry, info: ServiceInfo, id: u64) -> bool {
    &&& entry.id == id
    &&& entry.name@ == info.name@
    &&& entry.display_name@ == info.display_name@
    &&& entry.launch_command@ == spec_launch_command(
        info.executable_path@,
        info.launch_arguments@,
    )
    &&& entry.start_type == info.start_type
    &&& entry.error_control == info.error_control
    &&& match (entry.account_name, info.account_name) {
        (Some(stored), Some(given)) => stored@ == given@,
        (None, None) => true,
        _ => false,
    }
    &&& entry.status == spec_initial_status(info.service_type)
    &&& !entry.marked_for_delete
    &&& entry.open_handles == 1
}

/// A connection to the service control manager, holding the rights
/// requested when it was made.
#[derive(Debug, Clone, Copy, PartialEq, Eq, Structural)]
pub struct ServiceManager {
    /// Rights requested at connect time.
    pub access: ServiceManagerAccess,
}

impl ServiceManager {
    /// Connect to a service control manager.
    ///
    /// An absent machine name means the local machine; an absent database
    /// name means the platform's default configuration database. A name
    /// holding a nul unit is rejected before anything is contacted.
    pub fn new(
        machine: Option<&Vec<u16>>,
        database: Option<&Vec<u16>>,
        request_access: ServiceManagerAccess,
    ) -> (r: Result<Self, ServiceManagerError>)
        ensures
            match r {
                Ok(manager) => {
                    &&& (machine matches Some(name) ==> !spec_contains_nul(name@))
                    &&& (database matches Some(name) ==> !spec_contains_nul(name@))
                    &&& manager.access == request_access
                },
                Err(e) => {
                    if machine matches Some(name) && spec_contains_nul(name@) {
                        e == ServiceManagerError::InvalidMachineName
                    } else {
                        &&& database matches Some(name) && spec_contains_nul(name@)
                        &&& e == ServiceManagerError::InvalidDatabaseName
                    }
                },
            },
    {
        if let Some(machine_name) = machine {
            if contains_nul(machine_name) {
                return Err(ServiceManagerError::InvalidMachineName);
            }
        }
        if let Some(database_name) = database {
            if contains_nul(database_name) {
                return Err(ServiceManagerError::InvalidDatabaseName);
            }
        }
        Ok(ServiceManager { access: request_access })
    }

    /// Connect to the local machine's service control manager. An absent
    /// database name means the platform's default configuration database.
    pub fn local_computer(
        database: Option<&Vec<u16>>,
        request_access: ServiceManagerAccess,
    ) -> (r: Result<Self, ServiceManagerError>)
        ensures
            match r {
                Ok(manager) => {
                    &&& (database matches Some(name) ==> !spec_contains_nul(name@))
                    &&& manager.access == request_access
                },
                Err(e) => {
                    &&& database matches Some(name) && spec_contains_nul(name@)
                    &&& e == ServiceManagerError::InvalidDatabaseName
                },
            },
    {
        ServiceManager::new(None, database, request_access)
    }

    /// Connect to a remote machine's service control manager. An absent
    /// database name means the platform's default configuration database.
    pub fn remote_computer(
        machine: &Vec<u16>,
        database: Option<&Vec<u16>>,
        request_access: ServiceManagerAccess,
    ) -> (r: Result<Self, ServiceManagerError>)
        ensures
            match r {
                Ok(manager) => {
                    &&& !spec_contains_nul(machine@)
                    &&& (database matches Some(name) ==> !spec_contains_nul(name@))
                    &&& manager.access == request_access
                },
                Err(e) => {
                    if spec_contains_nul(machine@) {
                        e == ServiceManagerError::InvalidMachineName
                    } else {
                        &&& database matches Some(name) && spec_contains_nul(name@)
                        &&& e == ServiceManagerError::InvalidDatabaseName
                    }
                },
            },
    {
        ServiceManager::new(Some(machine), database, request_access)
    }

    /// Register a new service entry built from the description and return
    /// a handle to it with the requested rights.
    ///
    /// The launch command is assembled by quoting the executable path and
    /// each launch argument so that embedded spaces, quotes and control
    /// characters survive re-tokenization. Fails exactly as
    /// [`spec_create_outcome`] says: on a textual field with an interior
    /// nul, without the create right, or on a name that already exists;
    /// nothing is registered on failure.
    #[verifier::loop_isolation(false)]
    pub fn create_service(
        &self,
        db: &mut ServiceDatabase,
        service_info: &ServiceInfo,
        service_access: ServiceAccess,
    ) -> (r: Result<Service, ServiceManagerError>)
        requires
            old(db).wf(),
            old(db).next_id < u64::MAX,
        ensures
            final(db).wf(),
            match r {
                Ok(service) => {
                    &&& spec_create_outcome(self.access, *old(db), *service_info)
                        == Ok::<(), ServiceManagerError>(())
                    &&& final(db).next_id == old(db).next_id + 1
                    &&& final(db).services@.len() == old(db).services@.len() + 1
                    &&& final(db).services@.drop_last() == old(db).services@
                    &&& spec_entry_matches_info(
                        final(db).services@.last(),
                        *service_info,
                        old(db).next_id,
                    )
                    &&& service.service_id == old(db).next_id
                    &&& service.access == service_access
                },
                Err(e) => {
                    &&& spec_create_outcome(self.access, *old(db), *service_info)
                        == Err::<(), ServiceManagerError>(e)
                    &&& *final(db) == *old(db)
                },
            },
    {
        if contains_nul(&service_info.name) {
            return Err(ServiceManagerError::InvalidServiceName);
        }
        if contains_nul(&service_info.display_name) {
            return Err(ServiceManagerError::InvalidDisplayName);
        }
        if let Some(account_name) = &service_info.account_name {
            if contains_nul(account_name) {
                return Err(ServiceManagerError::InvalidAccountName);
            }
        }
        if let Some(account_password) = &service_info.account_password {
            if contains_nul(account_password) {
                return Err(ServiceManagerError::InvalidAccountPassword);
            }
        }
        if contains_nul(&service_info.executable_path) {
            return Err(ServiceManagerError::InvalidExecutablePath);
        }
        let mut index: usize = 0;
        while index < service_info.launch_arguments.len()
            invariant
                index <= service_info.launch_arguments@.len(),
                forall|i: int|
                    0 <= i < index
                        ==> !spec_contains_nul(#[trigger] service_info.launch_arguments@[i]@),
            decreases service_info.launch_arguments@.len() - index,
        {
            if contains_nul(&service_info.launch_arguments[index]) {
                return Err(ServiceManagerError::InvalidLaunchArgument);
            }
            index = index + 1;
        }
        if !self.access.create_service {
            return Err(ServiceManagerError::System(ERROR_ACCESS_DENIED));
        }
        if db.find_by_name(&service_info.name).is_some() {
            return Err(ServiceManagerError::System(ERROR_SERVICE_EXISTS));
        }
        let launch_command = build_launch_command(service_info);
        let account_name = match &service_info.account_name {
            Some(account_name) => Some(clone_wide(account_name)),
            None => None,
        };
        let entry = ServiceEntry {
            id: db.next_id,
            name: clone_wide(&service_info.name),
            display_name: clone_wide(&service_info.display_name),
            launch_command,
            start_type: service_info.start_type,
            error_control: service_info.error_control,
            account_name,
            status: crate::database::initial_status(service_info.service_type),
            marked_for_delete: false,
            open_handles: 1,
        };
        let service = Service { service_id: db.next_id, access: service_access };
        db.services.push(entry);
        db.next_id = db.next_id + 1;
        proof {
            assert(final(db).services@.drop_last() =~= old(db).services@);
            assert forall|i: int, j: int|
                0 <= i < j < db.services@.len()
                    implies db.services@[i].name@ != db.services@[j].name@ by {
                if j < db.services@.len() - 1 {
                    assert(db.services@[i] == old(db).services@[i]);
                    assert(db.services@[j] == old(db).services@[j]);
                } else {
                    assert(db.services@[i] == old(db).services@[i]);
                    assert(!old(db).spec_contains_name(service_info.name@));
                }
            }
            assert forall|i: int, j: int|
                0 <= i < j < db.services@.len()
                    implies db.services@[i].id != db.services@[j].id by {
                if j < db.services@.len() - 1 {
                    assert(db.services@[i] == old(db).services@[i]);
                    assert(db.services@[j] == old(db).services@[j]);
                } else {
                    assert(db.services@[i] == old(db).services@[i]);
                }
            }
            assert forall|i: int|
                0 <= i < db.services@.len()
                    implies #[trigger] db.services@[i].id < db.next_id by {
                if i < db.services@.len() - 1 {
                    assert(db.services@[i] == old(db).services@[i]);
                }
            }
        }
        Ok(service)
    }

    /// Open a handle, with the requested rights, to the service entry
    /// registered under the given name.
    ///
    /// Fails on a name holding a nul unit, without the connect right, or
    /// when no entry carries the name; on success the entry's handle
    /// count rises by one (saturating) and nothing else changes.
    pub fn open_service(
        &self,
        db: &mut ServiceDatabase,
        name: &Vec<u16>,
        request_access: ServiceAccess,
    ) -> (r: Result<Service, ServiceManagerError>)
        requires
            old(db).wf(),
        ensures
            final(db).wf(),
            match r {
                Ok(service) => {
                    &&& !spec_contains_nul(name@)
                    &&& self.access.connect
                    &&& old(db).spec_contains_name(name@)
                    &&& {
                        let index = old(db).spec_index_of_name(name@);
                        let entry = old(db).services@[index];
                        let raised = if entry.open_handles == u64::MAX {
                            entry.open_handles
                        } else {
                            (entry.open_handles + 1) as u64
                        };
                        &&& service.service_id == entry.id
                        &&& service.access == request_access
                        &&& final(db).services@ == old(db).services@.update(index, ServiceEntry {
                            open_handles: raised,
                            ..entry
                        })
                        &&& final(db).next_id == old(db).next_id
                    }
                },
                Err(e) => {
                    &&& *final(db) == *old(db)
                    &&& if spec_contains_nul(name@) {
                        e == ServiceManagerError::InvalidServiceName
                    } else if !self.access.connect {
                        e == ServiceManagerError::System(ERROR_ACCESS_DENIED)
                    } else {
                        &&& !old(db).spec_contains_name(name@)
                        &&& e == ServiceManagerError::System(ERROR_SERVICE_DOES_NOT_EXIST)
                    }
                },
            },
    {
        if contains_nul(name) {
            return Err(ServiceManagerError::InvalidServiceName);
        }
        if !self.access.connect {
            return Err(ServiceManagerError::System(ERROR_ACCESS_DENIED));
        }
        match db.find_by_name(name) {
            None => Err(ServiceManagerError::System(ERROR_SERVICE_DOES_NOT_EXIST)),
            Some(index) => {
                let id = db.services[index].id;
                let handles = db.services[index].open_handles;
                let raised: u64 = if handles == u64::MAX { handles } else { handles + 1 };
                let entry = &mut db.services[index];
                entry.open_handles = raised;
                proof {
                    lemma_wf_after_entry_update(
                        *old(db),
                        *db,
                        index as int,
                        db.services@[index as int],
                    );
                }
                Ok(Service { service_id: id, access: request_access })
            }
        }
    }
}

/// The manager rights that installing a service requests: connect and
/// create.
pub open spec fn spec_install_access() -> ServiceManagerAccess {
    ServiceManagerAccess { connect: true, create_service: true, enumerate_service: false }
}

/// Register a service entry from the given description on the local
/// machine's default database and release the handle again.
///
/// Succeeds or fails exactly as creating the entry through a manager
/// connected with connect and create rights does; on success the entry
/// stands registered with no handle left open on it.
pub fn install_service(db: &mut ServiceDatabase, service_info: &ServiceInfo) -> (r: Result<
    (),
    ServiceManagerError,
>)
    requires
        old(db).wf(),
        old(db).next_id < u64::MAX,
    ensures
        final(db).wf(),
        match r {
            Ok(()) => {
                &&& spec_create_outcome(spec_install_access(), *old(db), *service_info)
                    == Ok::<(), ServiceManagerError>(())
                &&& final(db).next_id == old(db).next_id + 1
                &&& final(db).services@.len() == old(db).services@.len() + 1
                &&& final(db).services@.drop_last() == old(db).services@
                &&& spec_entry_matches_info(
                    ServiceEntry { open_handles: 1, ..final(db).services@.last() },
                    *service_info,
                    old(db).next_id,
                )
                &&& final(db).services@.last().open_handles == 0
            },
            Err(e) => {
                &&& spec_create_outcome(spec_install_access(), *old(db), *service_info)
                    == Err::<(), ServiceManagerError>(e)
                &&& *final(db) == *old(db)
            },
        },
{
    let manager_access = ServiceManagerAccess {
        connect: true,
        create_service: true,
        enumerate_service: false,
    };
    let service_manager = match ServiceManager::local_computer(None, manager_access) {
        Ok(service_manager) => service_manager,
        Err(_) => {
            proof {
                assert(false);
            }
            return vstd::pervasive::unreached();
        }
    };
    match service_manager.create_service(db, service_info, ServiceAccess::empty()) {
        Err(e) => Err(e),
        Ok(service) => {
            let ghost created = *db;
            let ghost created_index = created.services@.len() - 1;
            proof {
                assert(created.services@[created_index].id == service.service_id);
                let chosen = created.spec_index_of_id(service.service_id);
                assert(0 <= chosen < created.services@.len()
                    && created.services@[chosen].id == service.service_id);
                if chosen != created_index {
                    assert(created.services@[chosen].id != created.services@[created_index].id);
                }
            }
            service.close(db);
            proof {
                assert(final(db).services@ =~= created.services@.update(
                    created_index,
                    ServiceEntry { open_handles: 0, ..created.services@[created_index] },
                ));
                assert(final(db).services@.drop_last() =~= old(db).services@);
                assert(ServiceEntry { open_handles: 1, ..final(db).services@.last() }
                    == created.services@[created_index]);
            }
            Ok(())
        }
    }
}

/// How many completed steps still separate a run state from the stopped
/// state along the removal flow: none when stopped, the pending stop
/// when stopping, the stop request and the pending stop otherwise.
pub open spec fn spec_stop_phase(state: ServiceState) -> int {
    if state == ServiceState::Stopped {
        0
    } else if state == ServiceState::StopPending {
        1
    } else {
        2
    }
}

/// Whether removal of the named entry is owed to succeed: the name is
/// representable, registered, not already marked for deletion, and the
/// entry is either stopped or accepting the stop control.
pub open spec fn spec_removal_owed(db: ServiceDatabase, name: Seq<u16>) -> bool {
    &&& !spec_contains_nul(name)
    &&& db.spec_contains_name(name)
    &&& {
        let entry = db.services@[db.spec_index_of_name(name)];
        &&& !entry.marked_for_delete
        &&& (entry.status.current_state == ServiceState::Stopped
            || entry.status.controls_accepted.stop)
    }
}

/// Stop and remove the named service entry from the local machine's
/// default database.
///
/// The status is polled in a loop: a pending stop waits for the service
/// control manager to let it complete, a stopped entry is marked for
/// deletion, and any other state is asked to stop. Polling is bounded:
/// after `max_polls` rounds the flow gives up with a distinct
/// did-not-stop-in-time error rather than looping forever. On success no
/// unmarked entry of that name remains; success is owed whenever the
/// entry stands unmarked, stopped or accepting stop, and at least three
/// polls are allowed. On failure the error is the first failing step's
/// code: a malformed or unregistered name from opening, the
/// already-marked or stop-refused code from the entry itself, or the
/// request-timeout code once the poll budget is exhausted.
#[verifier::loop_isolation(false)]
#[verifier::rlimit(30)]
pub fn remove_service(db: &mut ServiceDatabase, service_name: &Vec<u16>, max_polls: u64) -> (r:
    Result<(), ServiceError>)
    requires
        old(db).wf(),
    ensures
        final(db).wf(),
        r matches Ok(()) ==> forall|i: int|
            0 <= i < final(db).services@.len()
                ==> !(final(db).services@[i].name@ == service_name@
                    && !final(db).services@[i].marked_for_delete),
        spec_removal_owed(*old(db), service_name@) && max_polls >= 3 ==> r is Ok,
        r matches Err(e) ==> {
            if spec_contains_nul(service_name@) {
                e == ServiceError::System(ERROR_INVALID_NAME)
            } else if !old(db).spec_contains_name(service_name@) {
                e == ServiceError::System(ERROR_SERVICE_DOES_NOT_EXIST)
            } else {
                let entry = old(db).services@[old(db).spec_index_of_name(service_name@)];
                &&& (e == ServiceError::System(ERROR_SERVICE_MARKED_FOR_DELETE)
                    ==> entry.marked_for_delete)
                &&& (e == ServiceError::System(ERROR_SERVICE_CANNOT_ACCEPT_CTRL)
                    ==> !entry.status.controls_accepted.stop)
                &&& (e == ServiceError::System(ERROR_SERVICE_MARKED_FOR_DELETE)
                    || e == ServiceError::System(ERROR_SERVICE_CANNOT_ACCEPT_CTRL)
                    || e == ServiceError::System(ERROR_SERVICE_REQUEST_TIMEOUT))
            }
        },
{
    let ghost owed = spec_removal_owed(*old(db), service_name@) && max_polls >= 3;
    let manager_access = ServiceManagerAccess {
        connect: true,
        create_service: false,
        enumerate_service: false,
    };
    let service_manager = match ServiceManager::local_computer(None, manager_access) {
        Ok(service_manager) => service_manager,
        Err(_) => {
            proof {
                assert(false);
            }
            return vstd::pervasive::unreached();
        }
    };
    let service_access = ServiceAccess {
        query_status: true,
        start: false,
        stop: true,
        pause_continue: false,
        interrogate: false,
        delete: true,
    };
    let service = match service_manager.open_service(db, service_name, service_access) {
        Ok(service) => service,
        Err(ServiceManagerError::System(code)) => {
            return Err(ServiceError::System(code));
        }
        Err(_) => {
            return Err(ServiceError::System(ERROR_INVALID_NAME));
        }
    };
    proof {
        let index = old(db).spec_index_of_name(service_name@);
        assert(db.services@[index].id == service.service_id);
        let chosen = db.spec_index_of_id(service.service_id);
        assert(0 <= chosen < db.services@.len()
            && db.services@[chosen].id == service.service_id);
        if chosen != index {
            assert(db.services@[chosen].id != db.services@[index].id);
        }
    }
    let mut polls: u64 = 0;
    while polls < max_polls
        invariant
            db.wf(),
            polls <= max_polls,
            db.spec_contains_id(service.service_id),
            db.services@[db.spec_index_of_id(service.service_id)].name@ == service_name@,
            ({
                let entry_now = db.services@[db.spec_index_of_id(service.service_id)];
                let entry_then = old(db).services@[old(db).spec_index_of_name(service_name@)];
                &&& entry_now.marked_for_delete == entry_then.marked_for_delete
                &&& entry_now.status.controls_accepted == entry_then.status.controls_accepted
            }),
            owed ==> ({
                let entry = db.services@[db.spec_index_of_id(service.service_id)];
                &&& !entry.marked_for_delete
                &&& (entry.status.current_state == ServiceState::Stopped
                    || entry.status.controls_accepted.stop)
                &&& spec_stop_phase(entry.status.current_state) + 1 <= max_polls - polls
            }),
        decreases max_polls - polls,
    {
        let service_status = match service.query_status(db) {
            Ok(service_status) => service_status,
            Err(e) => {
                service.close(db);
                return Err(e);
            }
        };
        match service_status.current_state {
            ServiceState::StopPending => {
                let ghost before = *db;
                db.advance_pending();
                proof {
                    let index = before.spec_index_of_id(service.service_id);
                    assert(db.services@[index].id == service.service_id);
                    let chosen = db.spec_index_of_id(service.service_id);
                    if chosen != index {
                        assert(db.services@[chosen].id != db.services@[index].id);
                    }
                }
            }
            ServiceState::Stopped => {
                let ghost before_delete = *db;
                match service.delete(db) {
                    Ok(()) => {
                        let ghost marked = *db;
                        let ghost index = marked.spec_index_of_id(service.service_id);
                        proof {
                            let prior = before_delete.spec_index_of_id(service.service_id);
                            assert(marked.services@[prior].id == service.service_id);
                            assert(marked.spec_contains_id(service.service_id));
                            assert(0 <= index < marked.services@.len()
                                && marked.services@[index].id == service.service_id);
                        }
                        service.close(db);
                        proof {
                            marked.services@.remove_ensures(index);
                            assert forall|i: int|
                                0 <= i < db.services@.len()
                                    implies !(db.services@[i].name@ == service_name@
                                        && !db.services@[i].marked_for_delete) by {
                                if marked.services@[index].open_handles == 1
                                    || marked.services@[index].open_handles == 0 {
                                    let before_i = if i < index { i } else { i + 1 };
                                    assert(db.services@[i] == marked.services@[before_i]);
                                    if marked.services@[before_i].name@ == service_name@ {
                                        assert(before_i == index);
                                    }
                                } else {
                                    assert(db.services@[i] == if i == index {
                                        ServiceEntry {
                                            open_handles: (marked.services@[index].open_handles
                                                - 1) as u64,
                                            ..marked.services@[index]
                                        }
                                    } else {
                                        marked.services@[i]
                                    });
                                    if db.services@[i].name@ == service_name@ {
                                        assert(i == index);
                                    }
                                }
                            }
                        }
                        return Ok(());
                    }
                    Err(e) => {
                        service.close(db);
                        return Err(e);
                    }
                }
            }
            _ => {
                let ghost before = *db;
                match service.stop(db) {
                    Ok(_) => {
                        proof {
                            let index = before.spec_index_of_id(service.service_id);
                            assert(db.services@[index].id == service.service_id);
                            let chosen = db.spec_index_of_id(service.service_id);
                            if chosen != index {
                                assert(db.services@[chosen].id != db.services@[index].id);
                            }
                        }
                    }
                    Err(e) => {
                        service.close(db);
                        return Err(e);
                    }
                }
            }
        }
        polls = polls + 1;
    }
    service.close(db);
    Err(ServiceError::System(ERROR_SERVICE_REQUEST_TIMEOUT))
}

} // verus!
