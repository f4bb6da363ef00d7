//! The wire request decoder: maps every supported wire request shape into
//! exactly one internal command variant, or fails with a typed error. No
//! partial commands are ever produced.

use vstd::prelude::*;
use crate::error::Error;
use crate::error::WireCall;
use crate::types::ContainerConfig;
use crate::types::ContainerID;
use crate::types::ContainerProcess;
use crate::types::ExecProcessRequest;
use crate::types::KillRequest;
use crate::types::Mount;
use crate::types::ResizePTYRequest;
use crate::types::SandboxID;
use crate::types::SandboxRequest;
use crate::types::SandboxStatusRequest;
use crate::types::ShutdownRequest;
use crate::types::StopSandboxRequest;
use crate::types::TaskRequest;
use crate::types::UpdateRequest;
use crate::pod_config::annotation_views;
use crate::pod_config::config_wf;
use crate::pod_config::decoded_annotations;
use crate::pod_config::parse_pod_sandbox_config;
use crate::pod_config::spec_parse_config;
use crate::types::SandboxConfig;
use crate::types::spec_new_container_id;
use crate::types::spec_new_process;
use crate::wire;
use vstd::utf8::decode_utf8;

verus! {

/// The single supported type-url for an embedded pod-sandbox config: a
/// protocol-compatibility constant, not configurable.
pub const SANDBOX_API_V1: &'static str = "runtime.v1.PodSandboxConfig";

/// True iff the option list contains the literal option `"ro"`.
pub open spec fn has_ro_option(options: Seq<String>) -> bool {
    exists|i: int| 0 <= i < options.len() && (#[trigger] options[i])@ == "ro"@
}

/// What mount normalization produces: destination taken from the wire
/// target, options copied verbatim, read-only derived from the option list,
/// device id and host-shared-fs path left unset.
pub open spec fn mount_of(m: wire::Mount) -> Mount {
    Mount {
        source: m.source,
        destination: m.target,
        fs_type: m.fs_type,
        options: m.options,
        device_id: None,
        host_shared_fs_path: None,
        read_only: has_ro_option(m.options@),
    }
}

/// Mount normalization lifted over a whole rootfs list.
pub open spec fn mounts_of(s: Seq<wire::Mount>) -> Seq<Mount> {
    s.map_values(|m: wire::Mount| mount_of(m))
}

/// Converts one wire mount descriptor into the internal mount record. Total
/// over well-formed input: no failure mode; paths are not validated here.
pub fn trans_from_shim_mount(m: wire::Mount) -> (r: Mount)
    ensures
        r == mount_of(m),
{
    let ro: String = "ro".to_owned();
    let mut read_only = false;
    let mut i: usize = 0;
    while i < m.options.len()
        invariant
            i <= m.options@.len(),
            ro@ == "ro"@,
            read_only == exists|j: int|
                0 <= j < i && (#[trigger] m.options@[j])@ == "ro"@,
        decreases m.options@.len() - i,
    {
        if m.options[i] == ro {
            read_only = true;
        }
        i = i + 1;
    }
    Mount {
        source: m.source,
        destination: m.target,
        fs_type: m.fs_type,
        options: m.options,
        device_id: None,
        host_shared_fs_path: None,
        read_only,
    }
}

/// Converts a whole wire rootfs list.
fn trans_mounts(v: Vec<wire::Mount>) -> (r: Vec<Mount>)
    ensures
        r@ == mounts_of(v@),
{
    let ghost orig = v@;
    let mut rem = v;
    let mut out: Vec<Mount> = Vec::new();
    while rem.len() > 0
        invariant
            out@.len() + rem@.len() == orig.len(),
            out@ == mounts_of(orig.take(out@.len() as int)),
            rem@ == orig.skip(out@.len() as int),
        decreases rem@.len(),
    {
        let ghost k = out@.len() as int;
        let m = rem.remove(0);
        proof {
            assert(m == orig[k]);
            assert(rem@ =~= orig.skip(k + 1));
        }
        out.push(trans_from_shim_mount(m));
        proof {
            assert(out@ =~= mounts_of(orig.take(k + 1)));
        }
    }
    proof {
        assert(orig.take(orig.len() as int) =~= orig);
    }
    out
}

/// Stdio normalization: an empty path on the wire becomes "absent", never a
/// present-but-empty path.
pub open spec fn spec_normalize_stdio(s: String) -> Option<String> {
    if s@.len() == 0 {
        None
    } else {
        Some(s)
    }
}

/// Normalizes one stdio path field.
pub fn normalize_stdio(s: String) -> (r: Option<String>)
    ensures
        r == spec_normalize_stdio(s),
{
    if s.as_str().is_empty() {
        None
    } else {
        Some(s)
    }
}

/// What decoding yields for a process-addressing call: the validated
/// identity wrapped in the command built by `wrap`, or the identity error
/// tagged with the failing call.
pub open spec fn spec_decode_process(
    id: String,
    exec_id: String,
    call: WireCall,
    wrap: spec_fn(ContainerProcess) -> TaskRequest,
) -> Result<TaskRequest, Error> {
    match spec_new_process(id, exec_id) {
        Ok(p) => Ok(wrap(p)),
        Err(reason) => Err(Error::InvalidIdentity { call, reason }),
    }
}

/// What decoding yields for a container-addressing call.
pub open spec fn spec_decode_container(
    id: String,
    call: WireCall,
    wrap: spec_fn(ContainerID) -> TaskRequest,
) -> Result<TaskRequest, Error> {
    match spec_new_container_id(id) {
        Ok(c) => Ok(wrap(c)),
        Err(reason) => Err(Error::InvalidIdentity { call, reason }),
    }
}

/// Decodes a sandbox-creation request. The embedded config must declare the
/// single supported pod-sandbox type-url, or decoding is rejected outright;
/// its bytes are then parsed and merged with the outer request into a
/// `SandboxConfig`.
pub fn decode_create_sandbox(req: wire::CreateSandboxRequest) -> (r: Result<SandboxRequest, Error>)
    ensures
        req.options.type_url@ != SANDBOX_API_V1@ ==> r == Err::<SandboxRequest, _>(
            Error::ProtocolMismatch { type_url: req.options.type_url },
        ),
        req.options.type_url@ == SANDBOX_API_V1@ && !config_wf(req.options.value@) ==> r == Err::<
            SandboxRequest,
            _,
        >(Error::MalformedConfig),
        req.options.type_url@ == SANDBOX_API_V1@ && config_wf(req.options.value@) ==> (r matches Ok(
            sr,
        ) && sr matches SandboxRequest::CreateSandbox(c) && c.sandbox_id == req.sandbox_id
            && c.bundle_path == req.bundle_path && c.rootfs_mounts@ == mounts_of(req.rootfs@)
            && c.type_url == req.options.type_url && c.netns_path == req.netns_path && (
        spec_parse_config(req.options.value@) matches Some(raw) && c.hostname@ == decode_utf8(
            raw.hostname,
        ) && annotation_views(c.annotations@) == decoded_annotations(raw.annotations))),
{
    let api: String = SANDBOX_API_V1.to_owned();
    if !(req.options.type_url == api) {
        return Err(Error::ProtocolMismatch { type_url: req.options.type_url });
    }
    let config = match parse_pod_sandbox_config(req.options.value.as_slice()) {
        Ok(c) => c,
        Err(e) => {
            return Err(e);
        },
    };
    Ok(
        SandboxRequest::CreateSandbox(
            SandboxConfig {
                sandbox_id: req.sandbox_id,
                bundle_path: req.bundle_path,
                rootfs_mounts: trans_mounts(req.rootfs),
                type_url: req.options.type_url,
                hostname: config.hostname,
                annotations: config.annotations,
                netns_path: req.netns_path,
            },
        ),
    )
}

pub fn decode_start_sandbox(req: wire::StartSandboxRequest) -> (r: Result<SandboxRequest, Error>)
    ensures
        r == Ok::<_, Error>(SandboxRequest::StartSandbox(SandboxID { sandbox_id: req.sandbox_id })),
{
    Ok(SandboxRequest::StartSandbox(SandboxID { sandbox_id: req.sandbox_id }))
}

pub fn decode_platform(req: wire::PlatformRequest) -> (r: Result<SandboxRequest, Error>)
    ensures
        r == Ok::<_, Error>(SandboxRequest::Platform(SandboxID { sandbox_id: req.sandbox_id })),
{
    Ok(SandboxRequest::Platform(SandboxID { sandbox_id: req.sandbox_id }))
}

pub fn decode_stop_sandbox(req: wire::StopSandboxRequest) -> (r: Result<SandboxRequest, Error>)
    ensures
        r == Ok::<_, Error>(
            SandboxRequest::StopSandbox(
                StopSandboxRequest {
                    sandbox_id: req.sandbox_id,
                    timeout_secs: req.timeout_secs,
                },
            ),
        ),
{
    Ok(
        SandboxRequest::StopSandbox(
            StopSandboxRequest { sandbox_id: req.sandbox_id, timeout_secs: req.timeout_secs },
        ),
    )
}

pub fn decode_wait_sandbox(req: wire::WaitSandboxRequest) -> (r: Result<SandboxRequest, Error>)
    ensures
        r == Ok::<_, Error>(SandboxRequest::WaitSandbox(SandboxID { sandbox_id: req.sandbox_id })),
{
    Ok(SandboxRequest::WaitSandbox(SandboxID { sandbox_id: req.sandbox_id }))
}

pub fn decode_sandbox_status(req: wire::SandboxStatusRequest) -> (r: Result<SandboxRequest, Error>)
    ensures
        r == Ok::<_, Error>(
            SandboxRequest::SandboxStatus(
                SandboxStatusRequest { sandbox_id: req.sandbox_id, verbose: req.verbose },
            ),
        ),
{
    Ok(
        SandboxRequest::SandboxStatus(
            SandboxStatusRequest { sandbox_id: req.sandbox_id, verbose: req.verbose },
        ),
    )
}

pub fn decode_ping(req: wire::PingRequest) -> (r: Result<SandboxRequest, Error>)
    ensures
        r == Ok::<_, Error>(SandboxRequest::Ping(SandboxID { sandbox_id: req.sandbox_id })),
{
    Ok(SandboxRequest::Ping(SandboxID { sandbox_id: req.sandbox_id }))
}

pub fn decode_shutdown_sandbox(req: wire::ShutdownSandboxRequest) -> (r: Result<
    SandboxRequest,
    Error,
>)
    ensures
        r == Ok::<_, Error>(
            SandboxRequest::ShutdownSandbox(SandboxID { sandbox_id: req.sandbox_id }),
        ),
{
    Ok(SandboxRequest::ShutdownSandbox(SandboxID { sandbox_id: req.sandbox_id }))
}

/// Decodes a task-creation request. Total: every field of the input is
/// recovered in the command, with stdio paths normalized and the optional
/// options payload passed through as raw bytes.
pub fn decode_create_task(req: wire::CreateTaskRequest) -> (r: Result<TaskRequest, Error>)
    ensures
        r matches Ok(t) && t matches TaskRequest::CreateContainer(c) && c.container_id == req.id
            && c.bundle == req.bundle && c.rootfs_mounts@ == mounts_of(req.rootfs@) && c.terminal
            == req.terminal && c.options == (match req.options {
            Some(a) => Some(a.value),
            None => None,
        }) && c.stdin == spec_normalize_stdio(req.stdin) && c.stdout == spec_normalize_stdio(
            req.stdout,
        ) && c.stderr == spec_normalize_stdio(req.stderr),
{
    let options = match req.options {
        Some(a) => Some(a.value),
        None => None,
    };
    Ok(
        TaskRequest::CreateContainer(
            ContainerConfig {
                container_id: req.id,
                bundle: req.bundle,
                rootfs_mounts: trans_mounts(req.rootfs),
                terminal: req.terminal,
                options,
                stdin: normalize_stdio(req.stdin),
                stdout: normalize_stdio(req.stdout),
                stderr: normalize_stdio(req.stderr),
            },
        ),
    )
}

pub fn decode_close_io(req: wire::CloseIORequest) -> (r: Result<TaskRequest, Error>)
    ensures
        r == spec_decode_process(
            req.id,
            req.exec_id,
            WireCall::CloseIO,
            |p: ContainerProcess| TaskRequest::CloseProcessIO(p),
        ),
{
    match ContainerProcess::new(req.id, req.exec_id) {
        Ok(p) => Ok(TaskRequest::CloseProcessIO(p)),
        Err(reason) => Err(Error::InvalidIdentity { call: WireCall::CloseIO, reason }),
    }
}

pub fn decode_delete(req: wire::DeleteRequest) -> (r: Result<TaskRequest, Error>)
    ensures
        r == spec_decode_process(
            req.id,
            req.exec_id,
            WireCall::Delete,
            |p: ContainerProcess| TaskRequest::DeleteProcess(p),
        ),
{
    match ContainerProcess::new(req.id, req.exec_id) {
        Ok(p) => Ok(TaskRequest::DeleteProcess(p)),
        Err(reason) => Err(Error::InvalidIdentity { call: WireCall::Delete, reason }),
    }
}

/// Decodes an exec request: validates the identity, normalizes stdio paths,
/// and retains the opaque process spec as its (type-url, bytes) pair without
/// interpreting it.
pub fn decode_exec(req: wire::ExecProcessRequest) -> (r: Result<TaskRequest, Error>)
    ensures
        spec_new_process(req.id, req.exec_id) matches Ok(p) ==> r matches Ok(t) && t
            matches TaskRequest::ExecProcess(e) && e.process == p && e.terminal == req.terminal
            && e.stdin == spec_normalize_stdio(req.stdin) && e.stdout == spec_normalize_stdio(
            req.stdout,
        ) && e.stderr == spec_normalize_stdio(req.stderr) && e.spec_type_url == req.spec.type_url
            && e.spec_value == req.spec.value,
        spec_new_process(req.id, req.exec_id) matches Err(reason) ==> r == Err::<TaskRequest, _>(
            Error::InvalidIdentity { call: WireCall::Exec, reason },
        ),
{
    let process = match ContainerProcess::new(req.id, req.exec_id) {
        Ok(p) => p,
        Err(reason) => {
            return Err(Error::InvalidIdentity { call: WireCall::Exec, reason });
        },
    };
    Ok(
        TaskRequest::ExecProcess(
            ExecProcessRequest {
                process,
                terminal: req.terminal,
                stdin: normalize_stdio(req.stdin),
                stdout: normalize_stdio(req.stdout),
                stderr: normalize_stdio(req.stderr),
                spec_type_url: req.spec.type_url,
                spec_value: req.spec.value,
            },
        ),
    )
}

pub fn decode_kill(req: wire::KillRequest) -> (r: Result<TaskRequest, Error>)
    ensures
        spec_new_process(req.id, req.exec_id) matches Ok(p) ==> r == Ok::<_, Error>(
            TaskRequest::KillProcess(KillRequest { process: p, signal: req.signal, all: req.all }),
        ),
        spec_new_process(req.id, req.exec_id) matches Err(reason) ==> r == Err::<TaskRequest, _>(
            Error::InvalidIdentity { call: WireCall::Kill, reason },
        ),
{
    match ContainerProcess::new(req.id, req.exec_id) {
        Ok(p) => Ok(
            TaskRequest::KillProcess(KillRequest { process: p, signal: req.signal, all: req.all }),
        ),
        Err(reason) => Err(Error::InvalidIdentity { call: WireCall::Kill, reason }),
    }
}

pub fn decode_wait(req: wire::WaitRequest) -> (r: Result<TaskRequest, Error>)
    ensures
        r == spec_decode_process(
            req.id,
            req.exec_id,
            WireCall::Wait,
            |p: ContainerProcess| TaskRequest::WaitProcess(p),
        ),
{
    match ContainerProcess::new(req.id, req.exec_id) {
        Ok(p) => Ok(TaskRequest::WaitProcess(p)),
        Err(reason) => Err(Error::InvalidIdentity { call: WireCall::Wait, reason }),
    }
}

pub fn decode_start(req: wire::StartRequest) -> (r: Result<TaskRequest, Error>)
    ensures
        r == spec_decode_process(
            req.id,
            req.exec_id,
            WireCall::Start,
            |p: ContainerProcess| TaskRequest::StartProcess(p),
        ),
{
    match ContainerProcess::new(req.id, req.exec_id) {
        Ok(p) => Ok(TaskRequest::StartProcess(p)),
        Err(reason) => Err(Error::InvalidIdentity { call: WireCall::Start, reason }),
    }
}

pub fn decode_state(req: wire::StateRequest) -> (r: Result<TaskRequest, Error>)
    ensures
        r == spec_decode_process(
            req.id,
            req.exec_id,
            WireCall::State,
            |p: ContainerProcess| TaskRequest::StateProcess(p),
        ),
{
    match ContainerProcess::new(req.id, req.exec_id) {
        Ok(p) => Ok(TaskRequest::StateProcess(p)),
        Err(reason) => Err(Error::InvalidIdentity { call: WireCall::State, reason }),
    }
}

/// Decodes a container-shutdown request; the identity is passed through
/// unvalidated, as this call addresses the container record itself.
pub fn decode_shutdown(req: wire::ShutdownRequest) -> (r: Result<TaskRequest, Error>)
    ensures
        r == Ok::<_, Error>(
            TaskRequest::ShutdownContainer(
                ShutdownRequest { container_id: req.id, is_now: req.now },
            ),
        ),
{
    Ok(TaskRequest::ShutdownContainer(ShutdownRequest { container_id: req.id, is_now: req.now }))
}

pub fn decode_resize_pty(req: wire::ResizePtyRequest) -> (r: Result<TaskRequest, Error>)
    ensures
        spec_new_process(req.id, req.exec_id) matches Ok(p) ==> r == Ok::<_, Error>(
            TaskRequest::ResizeProcessPTY(
                ResizePTYRequest { process: p, width: req.width, height: req.height },
            ),
        ),
        spec_new_process(req.id, req.exec_id) matches Err(reason) ==> r == Err::<TaskRequest, _>(
            Error::InvalidIdentity { call: WireCall::ResizePty, reason },
        ),
{
    match ContainerProcess::new(req.id, req.exec_id) {
        Ok(p) => Ok(
            TaskRequest::ResizeProcessPTY(
                ResizePTYRequest { process: p, width: req.width, height: req.height },
            ),
        ),
        Err(reason) => Err(Error::InvalidIdentity { call: WireCall::ResizePty, reason }),
    }
}

pub fn decode_pause(req: wire::PauseRequest) -> (r: Result<TaskRequest, Error>)
    ensures
        r == spec_decode_container(
            req.id,
            WireCall::Pause,
            |c: ContainerID| TaskRequest::PauseContainer(c),
        ),
{
    match ContainerID::new(req.id) {
        Ok(c) => Ok(TaskRequest::PauseContainer(c)),
        Err(reason) => Err(Error::InvalidIdentity { call: WireCall::Pause, reason }),
    }
}

pub fn decode_resume(req: wire::ResumeRequest) -> (r: Result<TaskRequest, Error>)
    ensures
        r == spec_decode_container(
            req.id,
            WireCall::Resume,
            |c: ContainerID| TaskRequest::ResumeContainer(c),
        ),
{
    match ContainerID::new(req.id) {
        Ok(c) => Ok(TaskRequest::ResumeContainer(c)),
        Err(reason) => Err(Error::InvalidIdentity { call: WireCall::Resume, reason }),
    }
}

pub fn decode_stats(req: wire::StatsRequest) -> (r: Result<TaskRequest, Error>)
    ensures
        r == spec_decode_container(
            req.id,
            WireCall::Stats,
            |c: ContainerID| TaskRequest::StatsContainer(c),
        ),
{
    match ContainerID::new(req.id) {
        Ok(c) => Ok(TaskRequest::StatsContainer(c)),
        Err(reason) => Err(Error::InvalidIdentity { call: WireCall::Stats, reason }),
    }
}

/// Decodes a resource-update request; the resources payload is passed
/// through as raw bytes without interpretation.
pub fn decode_update_task(req: wire::UpdateTaskRequest) -> (r: Result<TaskRequest, Error>)
    ensures
        r == Ok::<_, Error>(
            TaskRequest::UpdateContainer(
                UpdateRequest { container_id: req.id, value: req.resources.value },
            ),
        ),
{
    Ok(
        TaskRequest::UpdateContainer(
            UpdateRequest { container_id: req.id, value: req.resources.value },
        ),
    )
}

/// Decodes a pids request, which carries no payload beyond identity and maps
/// to the trivial variant.
pub fn decode_pids(_req: wire::PidsRequest) -> (r: Result<TaskRequest, Error>)
    ensures
        r == Ok::<_, Error>(TaskRequest::Pid),
{
    Ok(TaskRequest::Pid)
}

pub fn decode_connect(req: wire::ConnectRequest) -> (r: Result<TaskRequest, Error>)
    ensures
        r == spec_decode_container(
            req.id,
            WireCall::Connect,
            |c: ContainerID| TaskRequest::ConnectContainer(c),
        ),
{
    match ContainerID::new(req.id) {
        Ok(c) => Ok(TaskRequest::ConnectContainer(c)),
        Err(reason) => Err(Error::InvalidIdentity { call: WireCall::Connect, reason }),
    }
}

} // verus!
