use shim_core::encode::encode_connect_response;
use shim_core::encode::encode_create_task_response;
use shim_core::encode::encode_delete_response;
use shim_core::encode::encode_empty;
use shim_core::encode::encode_pids_response;
use shim_core::encode::encode_start_response;
use shim_core::encode::encode_state_response;
use shim_core::encode::encode_stats_response;
use shim_core::encode::encode_wait_response;
use shim_core::encode::option_system_time_into;
use shim_core::encode::status_into;
use shim_core::encode::system_time_into;
use shim_core::error::Error;
use shim_core::error::ResponseKind;
use shim_core::types::PID;
use shim_core::types::ProcessExitStatus;
use shim_core::types::ProcessStateInfo;
use shim_core::types::ProcessStatus;
use shim_core::types::StatsInfo;
use shim_core::types::StatsValue;
use shim_core::types::TaskResponse;
use shim_core::types::UnixTime;
use shim_core::wire;

fn state_info() -> ProcessStateInfo {
    ProcessStateInfo {
        container_id: "c1".to_string(),
        exec_id: "e1".to_string(),
        pid: PID { pid: 42 },
        bundle: "/bundle".to_string(),
        status: ProcessStatus::Exited,
        stdin: None,
        stdout: Some("/out".to_string()),
        stderr: None,
        terminal: true,
        exit_status: 137,
        exited_at: Some(UnixTime { secs_since_epoch: Some(1000) }),
    }
}

#[test]
fn status_collapse_stopped_and_exited() {
    assert_eq!(status_into(ProcessStatus::Stopped), wire::Status::Stopped);
    assert_eq!(status_into(ProcessStatus::Exited), wire::Status::Stopped);
}

#[test]
fn status_other_variants_are_distinct() {
    let others = [
        ProcessStatus::Unknown,
        ProcessStatus::Created,
        ProcessStatus::Running,
        ProcessStatus::Paused,
        ProcessStatus::Pausing,
    ];
    for (i, a) in others.iter().enumerate() {
        assert_ne!(status_into(*a), wire::Status::Stopped);
        for (j, b) in others.iter().enumerate() {
            if i != j {
                assert_ne!(status_into(*a), status_into(*b));
            }
        }
    }
    assert_eq!(status_into(ProcessStatus::Unknown), wire::Status::Unknown);
    assert_eq!(status_into(ProcessStatus::Created), wire::Status::Created);
    assert_eq!(status_into(ProcessStatus::Running), wire::Status::Running);
    assert_eq!(status_into(ProcessStatus::Paused), wire::Status::Paused);
    assert_eq!(status_into(ProcessStatus::Pausing), wire::Status::Pausing);
}

#[test]
fn timestamps_encode_seconds() {
    let t = system_time_into(UnixTime { secs_since_epoch: Some(1234) });
    assert_eq!(t.seconds, 1234);
    assert_eq!(t.nanos, 0);
}

#[test]
fn pre_epoch_time_encodes_as_zero() {
    let t = system_time_into(UnixTime { secs_since_epoch: None });
    assert_eq!(t.seconds, 0);
}

#[test]
fn out_of_range_time_encodes_as_zero() {
    let t = system_time_into(UnixTime { secs_since_epoch: Some(u64::MAX) });
    assert_eq!(t.seconds, 0);
}

#[test]
fn absent_timestamp_stays_absent() {
    assert_eq!(option_system_time_into(None), None);
    let some = option_system_time_into(Some(UnixTime { secs_since_epoch: Some(5) }));
    assert_eq!(some, Some(wire::Timestamp { seconds: 5, nanos: 0 }));
}

#[test]
fn wait_response_carries_exit_code_and_time() {
    let resp = TaskResponse::WaitProcess(ProcessExitStatus {
        exit_code: 137,
        exit_time: Some(UnixTime { secs_since_epoch: Some(99) }),
    });
    let w = encode_wait_response(resp).unwrap();
    assert_eq!(w.exit_status, 137);
    assert_eq!(w.exited_at, Some(wire::Timestamp { seconds: 99, nanos: 0 }));
}

#[test]
fn wait_response_negative_exit_code_wraps() {
    let resp = TaskResponse::WaitProcess(ProcessExitStatus { exit_code: -1, exit_time: None });
    let w = encode_wait_response(resp).unwrap();
    assert_eq!(w.exit_status, u32::MAX);
    assert_eq!(w.exited_at, None);
}

#[test]
fn delete_response_scenario_exit_status_137() {
    let w = encode_delete_response(TaskResponse::DeleteProcess(state_info())).unwrap();
    assert_eq!(w.exit_status, 137);
    assert_eq!(w.pid, 42);
    assert_eq!(w.exited_at, Some(wire::Timestamp { seconds: 1000, nanos: 0 }));
}

#[test]
fn connect_response_from_pid_is_unexpected_scenario() {
    match encode_connect_response(TaskResponse::Pid(PID { pid: 7 })) {
        Err(Error::UnexpectedResponse { response, expected }) => {
            assert_eq!(expected, ResponseKind::Connect);
            assert_eq!(expected.name(), "ConnectResponse");
            assert_eq!(response, TaskResponse::Pid(PID { pid: 7 }));
        },
        other => panic!("expected mismatch error, got {:?}", other),
    }
}

#[test]
fn create_task_response_matches_only_create() {
    let ok = encode_create_task_response(TaskResponse::CreateContainer(PID { pid: 3 })).unwrap();
    assert_eq!(ok, wire::CreateTaskResponse { pid: 3 });
    match encode_create_task_response(TaskResponse::KillProcess) {
        Err(Error::UnexpectedResponse { expected, .. }) => {
            assert_eq!(expected, ResponseKind::CreateTask);
            assert_eq!(expected.name(), "CreateTaskResponse");
        },
        other => panic!("expected mismatch error, got {:?}", other),
    }
}

#[test]
fn start_response_matches_only_start() {
    let ok = encode_start_response(TaskResponse::StartProcess(PID { pid: 8 })).unwrap();
    assert_eq!(ok, wire::StartResponse { pid: 8 });
    match encode_start_response(TaskResponse::CreateContainer(PID { pid: 8 })) {
        Err(Error::UnexpectedResponse { expected, .. }) => {
            assert_eq!(expected, ResponseKind::Start)
        },
        other => panic!("expected mismatch error, got {:?}", other),
    }
}

#[test]
fn state_response_carries_every_field() {
    let w = encode_state_response(TaskResponse::StateProcess(state_info())).unwrap();
    assert_eq!(w.id, "c1");
    assert_eq!(w.bundle, "/bundle");
    assert_eq!(w.pid, 42);
    assert_eq!(w.status, wire::Status::Stopped);
    assert_eq!(w.stdin, "");
    assert_eq!(w.stdout, "/out");
    assert_eq!(w.stderr, "");
    assert!(w.terminal);
    assert_eq!(w.exit_status, 137);
    assert_eq!(w.exited_at, Some(wire::Timestamp { seconds: 1000, nanos: 0 }));
    assert_eq!(w.exec_id, "e1");
    match encode_state_response(TaskResponse::ExecProcess) {
        Err(Error::UnexpectedResponse { expected, .. }) => {
            assert_eq!(expected, ResponseKind::State)
        },
        other => panic!("expected mismatch error, got {:?}", other),
    }
}

#[test]
fn stats_response_rewraps_payload() {
    let resp = TaskResponse::StatsContainer(StatsInfo {
        value: Some(StatsValue { type_url: "metrics.v1".to_string(), value: vec![5, 6] }),
    });
    let w = encode_stats_response(resp).unwrap();
    assert_eq!(
        w.stats,
        Some(wire::Any { type_url: "metrics.v1".to_string(), value: vec![5, 6] })
    );
    let none = encode_stats_response(TaskResponse::StatsContainer(StatsInfo { value: None }))
        .unwrap();
    assert_eq!(none.stats, None);
    match encode_stats_response(TaskResponse::Pid(PID { pid: 1 })) {
        Err(Error::UnexpectedResponse { expected, .. }) => {
            assert_eq!(expected, ResponseKind::Stats)
        },
        other => panic!("expected mismatch error, got {:?}", other),
    }
}

#[test]
fn pids_response_lists_the_single_pid() {
    let w = encode_pids_response(TaskResponse::Pid(PID { pid: 11 })).unwrap();
    assert_eq!(w.processes, vec![wire::ProcessInfo { pid: 11 }]);
    match encode_pids_response(TaskResponse::ConnectContainer(PID { pid: 11 })) {
        Err(Error::UnexpectedResponse { expected, .. }) => {
            assert_eq!(expected, ResponseKind::Pids)
        },
        other => panic!("expected mismatch error, got {:?}", other),
    }
}

#[test]
fn connect_response_from_connect_succeeds() {
    let w = encode_connect_response(TaskResponse::ConnectContainer(PID { pid: 21 })).unwrap();
    assert_eq!(w, wire::ConnectResponse { shim_pid: 21 });
}

#[test]
fn empty_ack_accepts_exactly_the_fire_and_forget_results() {
    let acks = [
        TaskResponse::CloseProcessIO,
        TaskResponse::ExecProcess,
        TaskResponse::KillProcess,
        TaskResponse::ShutdownContainer,
        TaskResponse::PauseContainer,
        TaskResponse::ResumeContainer,
        TaskResponse::ResizeProcessPTY,
        TaskResponse::UpdateContainer,
    ];
    for a in acks {
        assert_eq!(encode_empty(a).unwrap(), wire::Empty {});
    }
    match encode_empty(TaskResponse::Pid(PID { pid: 2 })) {
        Err(Error::UnexpectedResponse { expected, .. }) => {
            assert_eq!(expected, ResponseKind::Empty);
            assert_eq!(expected.name(), "Empty");
        },
        other => panic!("expected mismatch error, got {:?}", other),
    }
    match encode_empty(TaskResponse::CreateContainer(PID { pid: 2 })) {
        Err(Error::UnexpectedResponse { expected, .. }) => {
            assert_eq!(expected, ResponseKind::Empty)
        },
        other => panic!("expected mismatch error, got {:?}", other),
    }
}
