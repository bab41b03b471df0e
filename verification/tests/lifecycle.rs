use windows_service::database::{
    Service, ServiceDatabase, ERROR_ACCESS_DENIED, ERROR_SERVICE_CANNOT_ACCEPT_CTRL,
    ERROR_SERVICE_DOES_NOT_EXIST, ERROR_SERVICE_EXISTS, ERROR_SERVICE_MARKED_FOR_DELETE,
    ERROR_SERVICE_NOT_ACTIVE,
};
use windows_service::service::{
    ServiceAccess, ServiceControl, ServiceControlAcceptBuilder, ServiceError,
    ServiceErrorControl, ServiceExitCode, ServiceInfo, ServiceStartType, ServiceState,
    ServiceStatusBuilder, ServiceType, WaitHint,
};
use windows_service::service_control_handler::{
    service_control_handler, HandlerError, ServiceControlHandler, ShutdownHandler,
};
use windows_service::service_dispatcher::{parse_raw_arguments, start_dispatcher};
use windows_service::service_manager::{
    install_service, remove_service, ServiceManager, ServiceManagerAccess, ServiceManagerError,
};
use windows_service::widestring::{from_raw_wide_string, to_wide_with_nul};

fn wide(s: &str) -> Vec<u16> {
    s.encode_utf16().collect()
}

fn service_info(name: &str) -> ServiceInfo {
    ServiceInfo {
        name: wide(name),
        display_name: wide("Mullvad VPN Service"),
        service_type: ServiceType::OwnProcess,
        start_type: ServiceStartType::OnDemand,
        error_control: ServiceErrorControl::Normal,
        executable_path: wide("C:\\Program Files\\Mullvad\\mullvad-service.exe"),
        launch_arguments: vec![wide("--service")],
        account_name: None,
        account_password: None,
    }
}

fn full_access() -> ServiceAccess {
    ServiceAccess {
        query_status: true,
        start: true,
        stop: true,
        pause_continue: true,
        interrogate: true,
        delete: true,
    }
}

fn connect_and_create() -> ServiceManagerAccess {
    ServiceManagerAccess {
        connect: true,
        create_service: true,
        enumerate_service: false,
    }
}

fn open_running_service(db: &mut ServiceDatabase, name: &str) -> Service {
    let manager = ServiceManager::local_computer(None, connect_and_create()).unwrap();
    let created = manager
        .create_service(db, &service_info(name), full_access())
        .unwrap();
    created.start(db).unwrap();
    db.advance_pending();
    created
}

#[test]
fn install_service_registers_quoted_launch_command() {
    let mut db = ServiceDatabase::new();
    install_service(&mut db, &service_info("Mullvad")).unwrap();
    assert_eq!(db.services.len(), 1);
    let entry = &db.services[0];
    assert_eq!(entry.name, wide("Mullvad"));
    assert_eq!(
        entry.launch_command,
        wide("\"C:\\Program Files\\Mullvad\\mullvad-service.exe\" --service")
    );
    assert_eq!(entry.status.current_state, ServiceState::Stopped);
    assert_eq!(entry.open_handles, 0);
    assert!(!entry.marked_for_delete);
}

#[test]
fn creating_the_same_name_twice_fails() {
    let mut db = ServiceDatabase::new();
    install_service(&mut db, &service_info("Mullvad")).unwrap();
    assert_eq!(
        install_service(&mut db, &service_info("Mullvad")),
        Err(ServiceManagerError::System(ERROR_SERVICE_EXISTS))
    );
    assert_eq!(db.services.len(), 1);
}

#[test]
fn create_without_create_right_is_denied() {
    let mut db = ServiceDatabase::new();
    let manager = ServiceManager::local_computer(
        None,
        ServiceManagerAccess {
            connect: true,
            create_service: false,
            enumerate_service: false,
        },
    )
    .unwrap();
    let result = manager.create_service(&mut db, &service_info("Mullvad"), full_access());
    assert_eq!(
        result.err(),
        Some(ServiceManagerError::System(ERROR_ACCESS_DENIED))
    );
    assert!(db.services.is_empty());
}

#[test]
fn interior_nul_in_name_is_rejected_before_registration() {
    let mut db = ServiceDatabase::new();
    let mut info = service_info("Mullvad");
    info.name = vec![0x4D, 0x00, 0x75];
    assert_eq!(
        install_service(&mut db, &info),
        Err(ServiceManagerError::InvalidServiceName)
    );
    assert!(db.services.is_empty());
}

#[test]
fn end_to_end_create_open_stop_delete() {
    let mut db = ServiceDatabase::new();
    install_service(&mut db, &service_info("Mullvad")).unwrap();

    let manager = ServiceManager::local_computer(None, connect_and_create()).unwrap();
    let service = manager
        .open_service(&mut db, &wide("Mullvad"), full_access())
        .unwrap();

    service.start(&mut db).unwrap();
    let status = service.query_status(&db).unwrap();
    assert!(matches!(
        status.current_state,
        ServiceState::StartPending | ServiceState::Running
    ));
    db.advance_pending();
    assert_eq!(
        service.query_status(&db).unwrap().current_state,
        ServiceState::Running
    );

    // repeatedly ask the service to stop until it reports stopped
    let mut polls = 0;
    loop {
        let status = service.query_status(&db).unwrap();
        match status.current_state {
            ServiceState::Stopped => break,
            ServiceState::StopPending => db.advance_pending(),
            _ => {
                let observed = service.stop(&mut db).unwrap();
                assert_eq!(observed.current_state, ServiceState::StopPending);
            }
        }
        polls += 1;
        assert!(polls < 10, "service did not stop in time");
    }

    service.delete(&mut db).unwrap();
    assert!(db.services[0].marked_for_delete);
    service.close(&mut db);
    assert!(db.services.is_empty());
}

#[test]
fn delete_before_stopped_is_a_distinct_pending_state() {
    let mut db = ServiceDatabase::new();
    let service = open_running_service(&mut db, "Mullvad");
    assert_eq!(
        service.query_status(&db).unwrap().current_state,
        ServiceState::Running
    );

    // deleting a running service marks it; the entry stays observable
    service.delete(&mut db).unwrap();
    assert_eq!(db.services.len(), 1);
    assert!(db.services[0].marked_for_delete);
    assert!(service.query_status(&db).is_ok());

    // a second deletion attempt fails rather than silently succeeding
    assert_eq!(
        service.delete(&mut db),
        Err(ServiceError::System(ERROR_SERVICE_MARKED_FOR_DELETE))
    );

    // removal completes once the service stops and the handle is released
    service.stop(&mut db).unwrap();
    db.advance_pending();
    service.close(&mut db);
    assert!(db.services.is_empty());
}

#[test]
fn stopping_a_stopped_service_reports_not_active() {
    let mut db = ServiceDatabase::new();
    install_service(&mut db, &service_info("Mullvad")).unwrap();
    let manager = ServiceManager::local_computer(None, connect_and_create()).unwrap();
    let service = manager
        .open_service(&mut db, &wide("Mullvad"), full_access())
        .unwrap();
    assert_eq!(
        service.stop(&mut db),
        Err(ServiceError::System(ERROR_SERVICE_NOT_ACTIVE))
    );
}

#[test]
fn controls_require_the_matching_right() {
    let mut db = ServiceDatabase::new();
    install_service(&mut db, &service_info("Mullvad")).unwrap();
    let manager = ServiceManager::local_computer(None, connect_and_create()).unwrap();
    let service = manager
        .open_service(&mut db, &wide("Mullvad"), ServiceAccess::empty())
        .unwrap();
    assert_eq!(
        service.query_status(&db),
        Err(ServiceError::System(ERROR_ACCESS_DENIED))
    );
    assert_eq!(
        service.stop(&mut db),
        Err(ServiceError::System(ERROR_ACCESS_DENIED))
    );
    assert_eq!(
        service.delete(&mut db),
        Err(ServiceError::System(ERROR_ACCESS_DENIED))
    );
}

#[test]
fn pause_is_refused_when_not_accepted() {
    let mut db = ServiceDatabase::new();
    let service = open_running_service(&mut db, "Mullvad");
    // a freshly started service accepts stop but not pause
    assert_eq!(
        service.send_control_command(&mut db, ServiceControl::Pause),
        Err(ServiceError::System(ERROR_SERVICE_CANNOT_ACCEPT_CTRL))
    );
}

#[test]
fn remove_service_stops_and_deletes() {
    let mut db = ServiceDatabase::new();
    let service = open_running_service(&mut db, "Mullvad");
    service.close(&mut db);
    assert_eq!(
        db.services[0].status.current_state,
        ServiceState::Running
    );

    remove_service(&mut db, &wide("Mullvad"), 5).unwrap();
    assert!(db.services.is_empty());
}

#[test]
fn remove_service_of_missing_name_fails() {
    let mut db = ServiceDatabase::new();
    assert_eq!(
        remove_service(&mut db, &wide("Absent"), 5),
        Err(ServiceError::System(ERROR_SERVICE_DOES_NOT_EXIST))
    );
}

#[test]
fn remove_service_reports_a_refused_stop() {
    let mut db = ServiceDatabase::new();
    let service = open_running_service(&mut db, "Mullvad");
    let registration = ServiceControlHandler::new(&db, &wide("Mullvad")).unwrap();

    // the service reports itself running but accepting no control at all
    let status = ServiceStatusBuilder::new()
        .service_type(ServiceType::OwnProcess)
        .current_state(ServiceState::Running)
        .controls_accepted(ServiceControlAcceptBuilder::new().build().unwrap())
        .exit_code(ServiceExitCode::Win32(0))
        .checkpoint(0)
        .wait_hint(WaitHint::from_millis(0))
        .build()
        .unwrap();
    registration
        .status_handle
        .set_service_status(&mut db, status)
        .unwrap();
    service.close(&mut db);

    assert_eq!(
        remove_service(&mut db, &wide("Mullvad"), 5),
        Err(ServiceError::System(ERROR_SERVICE_CANNOT_ACCEPT_CTRL))
    );
}

#[test]
fn handler_registration_requires_a_registered_name() {
    let db = ServiceDatabase::new();
    assert!(matches!(
        ServiceControlHandler::new(&db, &wide("Mullvad")),
        Err(HandlerError::System(_))
    ));
}

#[test]
fn status_report_token_pushes_snapshots() {
    let mut db = ServiceDatabase::new();
    let service = open_running_service(&mut db, "Mullvad");
    let registration = ServiceControlHandler::new(&db, &wide("Mullvad")).unwrap();
    let token = registration.status_handle;

    let mut reported = service.query_status(&db).unwrap();
    reported.current_state = ServiceState::Paused;
    token.set_service_status(&mut db, reported).unwrap();
    assert_eq!(
        service.query_status(&db).unwrap().current_state,
        ServiceState::Paused
    );
}

#[test]
fn unrecognized_control_code_reports_not_implemented() {
    let mut handler = ShutdownHandler::new();
    // decoding an unrecognized raw code yields "not implemented",
    // never a crash and never one of the known commands
    assert_eq!(service_control_handler(&mut handler, 0xDEAD_BEEF), 120);
    assert!(!handler.shutdown_requested);

    assert_eq!(service_control_handler(&mut handler, 4), 0); // interrogate
    assert!(!handler.shutdown_requested);

    assert_eq!(service_control_handler(&mut handler, 9), 120); // netbind enable
    assert!(!handler.shutdown_requested);

    assert_eq!(service_control_handler(&mut handler, 1), 0); // stop
    assert!(handler.shutdown_requested);
}

#[test]
fn dispatcher_runs_the_entry_point_until_shutdown() {
    let mut db = ServiceDatabase::new();
    let service = open_running_service(&mut db, "Mullvad");

    let raw_argv = vec![to_wide_with_nul(&wide("--service"))];
    let controls = vec![4u32, 0xDEAD_BEEF, 6, 1, 4];
    let (arguments, outcome) =
        start_dispatcher(&mut db, &wide("Mullvad"), &raw_argv, 256, &controls).unwrap();

    assert_eq!(arguments, vec![wide("--service")]);
    // interrogate acknowledged, unknown and param-change unimplemented,
    // stop acknowledged; nothing after the stop is processed
    assert_eq!(outcome.responses, vec![0, 120, 120, 0]);
    assert!(outcome.shutdown_requested);
    assert_eq!(
        service.query_status(&db).unwrap().current_state,
        ServiceState::Stopped
    );
}

#[test]
fn dispatcher_without_shutdown_processes_every_event() {
    let mut db = ServiceDatabase::new();
    let _service = open_running_service(&mut db, "Mullvad");
    let controls = vec![4u32, 4];
    let (_, outcome) =
        start_dispatcher(&mut db, &wide("Mullvad"), &Vec::new(), 256, &controls).unwrap();
    assert_eq!(outcome.responses, vec![0, 0]);
    assert!(!outcome.shutdown_requested);
    assert_eq!(
        db.services[0].status.current_state,
        ServiceState::Running
    );
}

#[test]
fn raw_argument_decoding_respects_the_bound() {
    // terminator inside the bound: decoded up to the nul
    assert_eq!(
        from_raw_wide_string(&vec![65, 66, 0, 67], 10),
        vec![65, 66]
    );
    // no terminator within the bound: the truncated value is returned,
    // nothing past the bound is read
    assert_eq!(from_raw_wide_string(&vec![65, 66, 67], 2), vec![65, 66]);
    // empty bound
    assert_eq!(from_raw_wide_string(&vec![65, 66], 0), Vec::<u16>::new());
    // nul in first position
    assert_eq!(from_raw_wide_string(&vec![0, 65], 8), Vec::<u16>::new());
}

#[test]
fn parse_raw_arguments_decodes_each_buffer() {
    let raw = vec![
        to_wide_with_nul(&wide("--service")),
        vec![65, 66, 67], // not terminated
    ];
    let arguments = parse_raw_arguments(&raw, 2);
    assert_eq!(arguments, vec![vec![0x2D, 0x2D], vec![65, 66]]);
}

#[test]
fn to_wide_with_nul_appends_terminator() {
    assert_eq!(to_wide_with_nul(&wide("ab")), vec![0x61, 0x62, 0]);
    assert_eq!(to_wide_with_nul(&Vec::new()), vec![0]);
}
