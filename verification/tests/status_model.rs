use windows_service::service::{
    RawServiceStatus, ServiceControl, ServiceControlAccept, ServiceControlAcceptBuilder,
    ServiceError, ServiceExitCode, ServiceStartType, ServiceState, ServiceStatusBuilder,
    ServiceAccess, ServiceErrorControl, ServiceType, StatusBuildError, ValidationError, WaitHint,
};
use windows_service::scmanager::SCManagerAccess;

fn raw_status(
    service_type: u32,
    current_state: u32,
    controls_accepted: u32,
    win32_exit_code: u32,
    service_specific_exit_code: u32,
    check_point: u32,
    wait_hint: u32,
) -> RawServiceStatus {
    RawServiceStatus {
        service_type,
        current_state,
        controls_accepted,
        win32_exit_code,
        service_specific_exit_code,
        check_point,
        wait_hint,
    }
}

#[test]
fn run_state_codes_round_trip() {
    // every known wire code decodes, and encoding the result reproduces it
    for code in [1u32, 2, 3, 4, 5, 6, 7] {
        let state = ServiceState::from_raw(code).unwrap();
        assert_eq!(state.to_raw(), code);
    }
}

#[test]
fn run_state_values_round_trip() {
    let states = [
        ServiceState::Stopped,
        ServiceState::StartPending,
        ServiceState::StopPending,
        ServiceState::Running,
        ServiceState::ContinuePending,
        ServiceState::PausePending,
        ServiceState::Paused,
    ];
    for state in states {
        assert_eq!(ServiceState::from_raw(state.to_raw()).unwrap(), state);
    }
}

#[test]
fn unknown_run_state_fails_closed() {
    assert_eq!(
        ServiceState::from_raw(0),
        Err(ServiceError::InvalidServiceState(0))
    );
    assert_eq!(
        ServiceState::from_raw(8),
        Err(ServiceError::InvalidServiceState(8))
    );
}

#[test]
fn control_codes_round_trip() {
    for code in [1u32, 2, 3, 4, 5, 6, 7, 8, 9, 10, 0xF] {
        let control = ServiceControl::from_raw(code).unwrap();
        assert_eq!(control.to_raw(), code);
    }
    assert_eq!(ServiceControl::Stop.to_raw(), 1);
    assert_eq!(ServiceControl::Shutdown.to_raw(), 5);
    assert_eq!(ServiceControl::Preshutdown.to_raw(), 0xF);
}

#[test]
fn unknown_control_code_is_a_decode_error() {
    assert_eq!(
        ServiceControl::from_raw(0xDEAD),
        Err(ServiceError::InvalidServiceControl(0xDEAD))
    );
    assert_eq!(
        ServiceControl::from_raw(11),
        Err(ServiceError::InvalidServiceControl(11))
    );
}

#[test]
fn service_type_round_trip() {
    assert_eq!(ServiceType::OwnProcess.to_raw(), 0x10);
    assert_eq!(ServiceType::from_raw(0x10).unwrap(), ServiceType::OwnProcess);
    assert_eq!(
        ServiceType::from_raw(0x20),
        Err(ServiceError::InvalidServiceType(0x20))
    );
}

#[test]
fn start_and_error_control_wire_codes() {
    assert_eq!(ServiceStartType::AutoStart.to_raw(), 2);
    assert_eq!(ServiceStartType::OnDemand.to_raw(), 3);
    assert_eq!(ServiceStartType::Disabled.to_raw(), 4);
    assert_eq!(ServiceErrorControl::Ignore.to_raw(), 0);
    assert_eq!(ServiceErrorControl::Normal.to_raw(), 1);
    assert_eq!(ServiceErrorControl::Severe.to_raw(), 2);
    assert_eq!(ServiceErrorControl::Critical.to_raw(), 3);
}

#[test]
fn exit_code_encode_decode_is_identity() {
    let mut raw = raw_status(0x10, 1, 0, 0, 0, 0, 0);

    ServiceExitCode::Win32(5).copy_to(&mut raw);
    assert_eq!(raw.win32_exit_code, 5);
    assert_eq!(raw.service_specific_exit_code, 0);
    assert_eq!(
        ServiceExitCode::from_raw_service_status(&raw),
        ServiceExitCode::Win32(5)
    );

    ServiceExitCode::ServiceSpecific(7).copy_to(&mut raw);
    assert_eq!(raw.win32_exit_code, 1066);
    assert_eq!(raw.service_specific_exit_code, 7);
    assert_eq!(
        ServiceExitCode::from_raw_service_status(&raw),
        ServiceExitCode::ServiceSpecific(7)
    );
}

#[test]
fn exit_code_sentinel_aliases_to_service_specific_zero() {
    // the one value outside the round trip: a win32 code equal to the
    // sentinel is indistinguishable on the wire from ServiceSpecific(0)
    let mut raw = raw_status(0x10, 1, 0, 0, 0, 0, 0);
    ServiceExitCode::Win32(1066).copy_to(&mut raw);
    assert_eq!(
        ServiceExitCode::from_raw_service_status(&raw),
        ServiceExitCode::ServiceSpecific(0)
    );
}

#[test]
fn accepted_controls_with_preshutdown_and_shutdown_fail() {
    let result = ServiceControlAcceptBuilder::new()
        .preshutdown(true)
        .shutdown(true)
        .build();
    assert_eq!(result, Err(ValidationError::PreshutdownAndShutdown));
}

#[test]
fn accepted_controls_with_either_alone_succeed() {
    let with_shutdown = ServiceControlAcceptBuilder::new()
        .shutdown(true)
        .stop(true)
        .build()
        .unwrap();
    assert!(with_shutdown.shutdown);
    assert!(with_shutdown.stop);
    assert!(!with_shutdown.preshutdown);

    let with_preshutdown = ServiceControlAcceptBuilder::new()
        .preshutdown(true)
        .build()
        .unwrap();
    assert!(with_preshutdown.preshutdown);
    assert!(!with_preshutdown.shutdown);
}

#[test]
fn accepted_controls_masks() {
    let accept = ServiceControlAcceptBuilder::new()
        .stop(true)
        .pause_continue(true)
        .shutdown(true)
        .param_change(true)
        .netbind_change(true)
        .build()
        .unwrap();
    assert_eq!(accept.to_raw(), 0x1 | 0x2 | 0x4 | 0x8 | 0x10);

    let decoded = ServiceControlAccept::from_raw(0x100 | 0x1);
    assert!(decoded.preshutdown);
    assert!(decoded.stop);
    assert!(!decoded.shutdown);
    assert_eq!(decoded.to_raw(), 0x101);
}

#[test]
fn accepted_controls_mask_round_trips_for_every_set() {
    for bits in 0u32..64 {
        let accept = ServiceControlAccept {
            netbind_change: bits & 1 != 0,
            param_change: bits & 2 != 0,
            pause_continue: bits & 4 != 0,
            preshutdown: bits & 8 != 0,
            shutdown: bits & 16 != 0,
            stop: bits & 32 != 0,
        };
        assert_eq!(ServiceControlAccept::from_raw(accept.to_raw()), accept);
    }
}

#[test]
fn status_with_checkpoint_in_running_state_fails() {
    let accept = ServiceControlAcceptBuilder::new().stop(true).build().unwrap();
    let result = ServiceStatusBuilder::new()
        .service_type(ServiceType::OwnProcess)
        .current_state(ServiceState::Running)
        .controls_accepted(accept)
        .exit_code(ServiceExitCode::Win32(0))
        .checkpoint(5)
        .wait_hint(WaitHint::from_secs(1))
        .build();
    assert_eq!(
        result,
        Err(StatusBuildError::Invalid(
            ValidationError::CheckpointWithoutPendingState
        ))
    );
}

#[test]
fn status_with_checkpoint_in_stop_pending_state_succeeds() {
    let accept = ServiceControlAcceptBuilder::new().build().unwrap();
    let status = ServiceStatusBuilder::new()
        .service_type(ServiceType::OwnProcess)
        .current_state(ServiceState::StopPending)
        .controls_accepted(accept)
        .exit_code(ServiceExitCode::Win32(0))
        .checkpoint(5)
        .wait_hint(WaitHint::from_secs(10))
        .build()
        .unwrap();
    assert_eq!(status.checkpoint, 5);
    assert_eq!(status.current_state, ServiceState::StopPending);
}

#[test]
fn status_builder_requires_every_field() {
    let result = ServiceStatusBuilder::new()
        .current_state(ServiceState::Running)
        .build();
    assert_eq!(result, Err(StatusBuildError::MissingField));
}

#[test]
fn status_snapshot_wire_record() {
    let accept = ServiceControlAcceptBuilder::new().stop(true).build().unwrap();
    let status = ServiceStatusBuilder::new()
        .service_type(ServiceType::OwnProcess)
        .current_state(ServiceState::StartPending)
        .controls_accepted(accept)
        .exit_code(ServiceExitCode::ServiceSpecific(9))
        .checkpoint(3)
        .wait_hint(WaitHint::from_millis(2500))
        .build()
        .unwrap();
    let raw = status.to_raw();
    assert_eq!(raw.service_type, 0x10);
    assert_eq!(raw.current_state, 2);
    assert_eq!(raw.controls_accepted, 0x1);
    assert_eq!(raw.win32_exit_code, 1066);
    assert_eq!(raw.service_specific_exit_code, 9);
    assert_eq!(raw.check_point, 3);
    // the wait hint is transmitted as its millisecond count
    assert_eq!(raw.wait_hint, 2500);
}

#[test]
fn status_snapshot_decodes_from_wire_record() {
    let raw = raw_status(0x10, 4, 0x1 | 0x4, 0, 0, 0, 30000);
    let status = windows_service::service::ServiceStatus::from_raw(raw).unwrap();
    assert_eq!(status.service_type, ServiceType::OwnProcess);
    assert_eq!(status.current_state, ServiceState::Running);
    assert!(status.controls_accepted.stop);
    assert!(status.controls_accepted.shutdown);
    assert!(!status.controls_accepted.preshutdown);
    assert_eq!(status.exit_code, ServiceExitCode::Win32(0));
    assert_eq!(status.wait_hint.millis, 30000);

    let bad_state = raw_status(0x10, 9, 0, 0, 0, 0, 0);
    assert_eq!(
        windows_service::service::ServiceStatus::from_raw(bad_state),
        Err(ServiceError::InvalidServiceState(9))
    );
    let bad_type = raw_status(0x20, 4, 0, 0, 0, 0, 0);
    assert_eq!(
        windows_service::service::ServiceStatus::from_raw(bad_type),
        Err(ServiceError::InvalidServiceType(0x20))
    );
}

#[test]
fn service_access_mask() {
    let access = ServiceAccess {
        query_status: true,
        start: false,
        stop: true,
        pause_continue: false,
        interrogate: false,
        delete: true,
    };
    assert_eq!(access.to_raw(), 0x4 | 0x20 | 0x10000);
    assert_eq!(ServiceAccess::empty().to_raw(), 0);
}

#[test]
fn scmanager_access_masks() {
    assert_eq!(SCManagerAccess::All.to_raw(), 0xF003F);
    assert_eq!(SCManagerAccess::Connect.to_raw(), 0x1);
    assert_eq!(SCManagerAccess::CreateService.to_raw(), 0x2);
    assert_eq!(SCManagerAccess::EnumerateService.to_raw(), 0x4);
    assert_eq!(
        SCManagerAccess::raw_mask(&[SCManagerAccess::Connect, SCManagerAccess::CreateService]),
        0x3
    );
    assert_eq!(SCManagerAccess::raw_mask(&[]), 0);
}
