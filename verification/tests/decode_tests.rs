use shim_core::decode::decode_close_io;
use shim_core::decode::decode_connect;
use shim_core::decode::decode_create_task;
use shim_core::decode::decode_delete;
use shim_core::decode::decode_exec;
use shim_core::decode::decode_kill;
use shim_core::decode::decode_pause;
use shim_core::decode::decode_pids;
use shim_core::decode::decode_ping;
use shim_core::decode::decode_platform;
use shim_core::decode::decode_resize_pty;
use shim_core::decode::decode_resume;
use shim_core::decode::decode_sandbox_status;
use shim_core::decode::decode_shutdown;
use shim_core::decode::decode_shutdown_sandbox;
use shim_core::decode::decode_start;
use shim_core::decode::decode_start_sandbox;
use shim_core::decode::decode_state;
use shim_core::decode::decode_stats;
use shim_core::decode::decode_stop_sandbox;
use shim_core::decode::decode_update_task;
use shim_core::decode::decode_wait;
use shim_core::decode::decode_wait_sandbox;
use shim_core::decode::normalize_stdio;
use shim_core::decode::trans_from_shim_mount;
use shim_core::error::Error;
use shim_core::error::WireCall;
use shim_core::types::IdentityError;
use shim_core::types::SandboxRequest;
use shim_core::types::TaskRequest;
use shim_core::wire;

fn mount(source: &str, target: &str, fs_type: &str, options: &[&str]) -> wire::Mount {
    wire::Mount {
        source: source.to_string(),
        target: target.to_string(),
        fs_type: fs_type.to_string(),
        options: options.iter().map(|o| o.to_string()).collect(),
    }
}

#[test]
fn mount_ro_option_sets_read_only() {
    let m = trans_from_shim_mount(mount("/src", "/dst", "bind", &["rbind", "ro"]));
    assert!(m.read_only);
    assert_eq!(m.source, "/src");
    assert_eq!(m.destination, "/dst");
    assert_eq!(m.fs_type, "bind");
    assert_eq!(m.options, vec!["rbind".to_string(), "ro".to_string()]);
    assert_eq!(m.device_id, None);
    assert_eq!(m.host_shared_fs_path, None);
}

#[test]
fn mount_ro_first_in_list_sets_read_only() {
    let m = trans_from_shim_mount(mount("s", "t", "bind", &["ro", "rbind", "nosuid"]));
    assert!(m.read_only);
}

#[test]
fn mount_without_ro_is_writable() {
    let m = trans_from_shim_mount(mount("s", "t", "bind", &["rbind", "rw", "nosuid"]));
    assert!(!m.read_only);
}

#[test]
fn mount_ronly_like_options_do_not_count() {
    let m = trans_from_shim_mount(mount("s", "t", "bind", &["read-only", "rot", "r"]));
    assert!(!m.read_only);
}

#[test]
fn create_task_scenario_ro_mount_and_absent_stdio() {
    let req = wire::CreateTaskRequest {
        id: "c1".to_string(),
        bundle: "/bundle".to_string(),
        rootfs: vec![mount("/src", "/dst", "bind", &["ro"])],
        terminal: false,
        stdin: String::new(),
        stdout: String::new(),
        stderr: String::new(),
        options: None,
    };
    match decode_create_task(req).unwrap() {
        TaskRequest::CreateContainer(c) => {
            assert_eq!(c.container_id, "c1");
            assert_eq!(c.bundle, "/bundle");
            assert_eq!(c.stdin, None);
            assert_eq!(c.stdout, None);
            assert_eq!(c.stderr, None);
            assert_eq!(c.options, None);
            assert!(!c.terminal);
            assert_eq!(c.rootfs_mounts.len(), 1);
            assert!(c.rootfs_mounts[0].read_only);
        },
        other => panic!("wrong variant: {:?}", other),
    }
}

#[test]
fn create_task_keeps_present_fields() {
    let req = wire::CreateTaskRequest {
        id: "c2".to_string(),
        bundle: "/b2".to_string(),
        rootfs: vec![],
        terminal: true,
        stdin: "/fifo/in".to_string(),
        stdout: "/fifo/out".to_string(),
        stderr: "/fifo/err".to_string(),
        options: Some(wire::Any { type_url: "opt".to_string(), value: vec![9, 9] }),
    };
    match decode_create_task(req).unwrap() {
        TaskRequest::CreateContainer(c) => {
            assert_eq!(c.stdin.as_deref(), Some("/fifo/in"));
            assert_eq!(c.stdout.as_deref(), Some("/fifo/out"));
            assert_eq!(c.stderr.as_deref(), Some("/fifo/err"));
            assert_eq!(c.options, Some(vec![9, 9]));
            assert!(c.terminal);
            assert!(c.rootfs_mounts.is_empty());
        },
        other => panic!("wrong variant: {:?}", other),
    }
}

#[test]
fn exec_scenario_keeps_spec_payload() {
    let req = wire::ExecProcessRequest {
        id: "c1".to_string(),
        exec_id: "e1".to_string(),
        terminal: true,
        stdin: String::new(),
        stdout: "/out".to_string(),
        stderr: String::new(),
        spec: wire::Any { type_url: "x".to_string(), value: vec![1, 2, 3] },
    };
    match decode_exec(req).unwrap() {
        TaskRequest::ExecProcess(e) => {
            assert_eq!(e.process.container_id.container_id, "c1");
            assert_eq!(e.process.exec_id.as_deref(), Some("e1"));
            assert_eq!(e.spec_type_url, "x");
            assert_eq!(e.spec_value, vec![1, 2, 3]);
            assert!(e.terminal);
            assert_eq!(e.stdin, None);
            assert_eq!(e.stdout.as_deref(), Some("/out"));
            assert_eq!(e.stderr, None);
        },
        other => panic!("wrong variant: {:?}", other),
    }
}

#[test]
fn empty_id_is_invalid_identity() {
    let req = wire::CloseIORequest { id: String::new(), exec_id: String::new() };
    match decode_close_io(req) {
        Err(Error::InvalidIdentity { call, reason }) => {
            assert_eq!(call, WireCall::CloseIO);
            assert_eq!(reason, IdentityError::EmptyContainerId);
        },
        other => panic!("expected invalid identity, got {:?}", other),
    }
}

#[test]
fn malformed_exec_id_is_invalid_identity() {
    let req = wire::DeleteRequest { id: "c1".to_string(), exec_id: "bad/exec".to_string() };
    match decode_delete(req) {
        Err(Error::InvalidIdentity { call, reason }) => {
            assert_eq!(call, WireCall::Delete);
            assert_eq!(reason, IdentityError::InvalidExecId);
        },
        other => panic!("expected invalid identity, got {:?}", other),
    }
}

#[test]
fn malformed_container_id_is_invalid_identity() {
    let req = wire::KillRequest {
        id: "c 1".to_string(),
        exec_id: String::new(),
        signal: 9,
        all: false,
    };
    match decode_kill(req) {
        Err(Error::InvalidIdentity { call, reason }) => {
            assert_eq!(call, WireCall::Kill);
            assert_eq!(reason, IdentityError::InvalidContainerId);
        },
        other => panic!("expected invalid identity, got {:?}", other),
    }
}

#[test]
fn process_calls_round_trip_identity() {
    let w = decode_wait(wire::WaitRequest { id: "abc".to_string(), exec_id: "e-2".to_string() });
    match w.unwrap() {
        TaskRequest::WaitProcess(p) => {
            assert_eq!(p.container_id.container_id, "abc");
            assert_eq!(p.exec_id.as_deref(), Some("e-2"));
        },
        other => panic!("wrong variant: {:?}", other),
    }
    match decode_start(wire::StartRequest { id: "abc".to_string(), exec_id: String::new() })
        .unwrap()
    {
        TaskRequest::StartProcess(p) => assert_eq!(p.exec_id, None),
        other => panic!("wrong variant: {:?}", other),
    }
    match decode_state(wire::StateRequest { id: "abc".to_string(), exec_id: String::new() })
        .unwrap()
    {
        TaskRequest::StateProcess(p) => assert_eq!(p.container_id.container_id, "abc"),
        other => panic!("wrong variant: {:?}", other),
    }
}

#[test]
fn kill_keeps_signal_and_all() {
    let req = wire::KillRequest {
        id: "c1".to_string(),
        exec_id: String::new(),
        signal: 15,
        all: true,
    };
    match decode_kill(req).unwrap() {
        TaskRequest::KillProcess(k) => {
            assert_eq!(k.signal, 15);
            assert!(k.all);
            assert_eq!(k.process.container_id.container_id, "c1");
        },
        other => panic!("wrong variant: {:?}", other),
    }
}

#[test]
fn resize_pty_keeps_dimensions() {
    let req = wire::ResizePtyRequest {
        id: "c1".to_string(),
        exec_id: "e1".to_string(),
        width: 80,
        height: 24,
    };
    match decode_resize_pty(req).unwrap() {
        TaskRequest::ResizeProcessPTY(r) => {
            assert_eq!(r.width, 80);
            assert_eq!(r.height, 24);
            assert_eq!(r.process.exec_id.as_deref(), Some("e1"));
        },
        other => panic!("wrong variant: {:?}", other),
    }
}

#[test]
fn container_calls_round_trip() {
    match decode_pause(wire::PauseRequest { id: "c1".to_string() }).unwrap() {
        TaskRequest::PauseContainer(c) => assert_eq!(c.container_id, "c1"),
        other => panic!("wrong variant: {:?}", other),
    }
    match decode_resume(wire::ResumeRequest { id: "c1".to_string() }).unwrap() {
        TaskRequest::ResumeContainer(c) => assert_eq!(c.container_id, "c1"),
        other => panic!("wrong variant: {:?}", other),
    }
    match decode_stats(wire::StatsRequest { id: "c1".to_string() }).unwrap() {
        TaskRequest::StatsContainer(c) => assert_eq!(c.container_id, "c1"),
        other => panic!("wrong variant: {:?}", other),
    }
    match decode_connect(wire::ConnectRequest { id: "c1".to_string() }).unwrap() {
        TaskRequest::ConnectContainer(c) => assert_eq!(c.container_id, "c1"),
        other => panic!("wrong variant: {:?}", other),
    }
    match decode_pause(wire::PauseRequest { id: String::new() }) {
        Err(Error::InvalidIdentity { call, reason }) => {
            assert_eq!(call, WireCall::Pause);
            assert_eq!(reason, IdentityError::EmptyContainerId);
        },
        other => panic!("expected invalid identity, got {:?}", other),
    }
}

#[test]
fn shutdown_and_update_pass_identity_through() {
    match decode_shutdown(wire::ShutdownRequest { id: "c9".to_string(), now: true }).unwrap() {
        TaskRequest::ShutdownContainer(s) => {
            assert_eq!(s.container_id, "c9");
            assert!(s.is_now);
        },
        other => panic!("wrong variant: {:?}", other),
    }
    let req = wire::UpdateTaskRequest {
        id: "c9".to_string(),
        resources: wire::Any { type_url: "res".to_string(), value: vec![1, 2] },
    };
    match decode_update_task(req).unwrap() {
        TaskRequest::UpdateContainer(u) => {
            assert_eq!(u.container_id, "c9");
            assert_eq!(u.value, vec![1, 2]);
        },
        other => panic!("wrong variant: {:?}", other),
    }
}

#[test]
fn pids_maps_to_trivial_variant() {
    let r = decode_pids(wire::PidsRequest { id: "anything".to_string() }).unwrap();
    assert_eq!(r, TaskRequest::Pid);
}

#[test]
fn sandbox_lifecycle_calls_round_trip() {
    match decode_start_sandbox(wire::StartSandboxRequest { sandbox_id: "s1".to_string() }).unwrap()
    {
        SandboxRequest::StartSandbox(s) => assert_eq!(s.sandbox_id, "s1"),
        other => panic!("wrong variant: {:?}", other),
    }
    match decode_platform(wire::PlatformRequest { sandbox_id: "s1".to_string() }).unwrap() {
        SandboxRequest::Platform(s) => assert_eq!(s.sandbox_id, "s1"),
        other => panic!("wrong variant: {:?}", other),
    }
    match decode_stop_sandbox(wire::StopSandboxRequest {
        sandbox_id: "s1".to_string(),
        timeout_secs: 30,
    })
    .unwrap()
    {
        SandboxRequest::StopSandbox(s) => {
            assert_eq!(s.sandbox_id, "s1");
            assert_eq!(s.timeout_secs, 30);
        },
        other => panic!("wrong variant: {:?}", other),
    }
    match decode_wait_sandbox(wire::WaitSandboxRequest { sandbox_id: "s1".to_string() }).unwrap() {
        SandboxRequest::WaitSandbox(s) => assert_eq!(s.sandbox_id, "s1"),
        other => panic!("wrong variant: {:?}", other),
    }
    match decode_sandbox_status(wire::SandboxStatusRequest {
        sandbox_id: "s1".to_string(),
        verbose: true,
    })
    .unwrap()
    {
        SandboxRequest::SandboxStatus(s) => {
            assert_eq!(s.sandbox_id, "s1");
            assert!(s.verbose);
        },
        other => panic!("wrong variant: {:?}", other),
    }
    match decode_ping(wire::PingRequest { sandbox_id: "s1".to_string() }).unwrap() {
        SandboxRequest::Ping(s) => assert_eq!(s.sandbox_id, "s1"),
        other => panic!("wrong variant: {:?}", other),
    }
    match decode_shutdown_sandbox(wire::ShutdownSandboxRequest { sandbox_id: "s1".to_string() })
        .unwrap()
    {
        SandboxRequest::ShutdownSandbox(s) => assert_eq!(s.sandbox_id, "s1"),
        other => panic!("wrong variant: {:?}", other),
    }
}

#[test]
fn stdio_normalization_is_idempotent() {
    // absent encodes to the empty string on the wire; re-decoding stays absent
    assert_eq!(normalize_stdio(String::new()), None);
    let normalized = normalize_stdio("/fifo".to_string()).unwrap();
    assert_eq!(normalize_stdio(normalized), Some("/fifo".to_string()));
}
