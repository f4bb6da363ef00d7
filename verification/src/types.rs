//! The closed internal model: value types produced by the decoder, consumed
//! by the handler layer, and returned to the encoder.

use vstd::prelude::*;

verus! {

/// An instant on the wall clock, reduced to what this layer reads of it:
/// whole seconds since the Unix epoch, or `None` when the instant precedes
/// the epoch.
#[derive(Clone, Copy, Debug, PartialEq, Eq, Structural)]
pub struct UnixTime {
    pub secs_since_epoch: Option<u64>,
}

/// A span of time as whole seconds plus a sub-second remainder in
/// nanoseconds.
#[derive(Clone, Copy, Debug, PartialEq, Eq, Structural)]
pub struct TimeSpan {
    pub secs: u64,
    pub nanos: u32,
}

/// A character that may appear in a container or exec identifier.
pub open spec fn is_id_char(c: char) -> bool {
    ('a' <= c && c <= 'z') || ('A' <= c && c <= 'Z') || ('0' <= c && c <= '9') || c == '.' || c
        == '_' || c == '-'
}

/// A well-formed identifier: non-empty, every character alphanumeric or one
/// of `.`, `_`, `-`.
pub open spec fn valid_id(s: Seq<char>) -> bool {
    s.len() > 0 && (forall|i: int| 0 <= i < s.len() ==> is_id_char(#[trigger] s[i]))
}

/// Why an identity was rejected at construction.
#[derive(Clone, Copy, Debug, PartialEq, Eq, Structural)]
pub enum IdentityError {
    EmptyContainerId,
    InvalidContainerId,
    InvalidExecId,
}

/// Identity of a container.
#[derive(Clone, Debug, PartialEq, Eq)]
pub struct ContainerID {
    pub container_id: String,
}

/// Identity of a container's main process (`exec_id` absent) or of a
/// specific exec'd process within it.
#[derive(Clone, Debug, PartialEq, Eq)]
pub struct ContainerProcess {
    pub container_id: ContainerID,
    pub exec_id: Option<String>,
}

/// Scans a string for identifier validity.
fn check_id_chars(s: &str) -> (r: bool)
    ensures
        r == forall|i: int| 0 <= i < s@.len() ==> is_id_char(#[trigger] s@[i]),
{
    let len = s.unicode_len();
    let mut i: usize = 0;
    while i < len
        invariant
            i <= len,
            len == s@.len(),
            forall|j: int| 0 <= j < i ==> is_id_char(#[trigger] s@[j]),
        decreases len - i,
    {
        let c = s.get_char(i);
        let ok = ('a' <= c && c <= 'z') || ('A' <= c && c <= 'Z') || ('0' <= c && c <= '9') || c
            == '.' || c == '_' || c == '-';
        if !ok {
            return false;
        }
        i = i + 1;
    }
    true
}

/// What identity construction yields for a container identifier.
pub open spec fn spec_new_container_id(container_id: String) -> Result<ContainerID, IdentityError> {
    if container_id@.len() == 0 {
        Err(IdentityError::EmptyContainerId)
    } else if !valid_id(container_id@) {
        Err(IdentityError::InvalidContainerId)
    } else {
        Ok(ContainerID { container_id })
    }
}

/// What identity construction yields for a (container id, exec id) pair: an
/// empty exec id denotes the container's main process, a non-empty one must
/// itself be a well-formed identifier.
pub open spec fn spec_new_process(container_id: String, exec_id: String) -> Result<
    ContainerProcess,
    IdentityError,
> {
    match spec_new_container_id(container_id) {
        Err(e) => Err(e),
        Ok(cid) => if exec_id@.len() == 0 {
            Ok(ContainerProcess { container_id: cid, exec_id: None })
        } else if valid_id(exec_id@) {
            Ok(ContainerProcess { container_id: cid, exec_id: Some(exec_id) })
        } else {
            Err(IdentityError::InvalidExecId)
        },
    }
}

impl ContainerID {
    /// Validates and wraps a container identifier.
    pub fn new(container_id: String) -> (r: Result<ContainerID, IdentityError>)
        ensures
            r == spec_new_container_id(container_id),
    {
        if container_id.as_str().is_empty() {
            Err(IdentityError::EmptyContainerId)
        } else if !check_id_chars(container_id.as_str()) {
            Err(IdentityError::InvalidContainerId)
        } else {
            Ok(ContainerID { container_id })
        }
    }
}

impl ContainerProcess {
    /// Validates a (container id, exec id) pair; an empty `exec_id` on the
    /// wire denotes the container's main process.
    pub fn new(container_id: String, exec_id: String) -> (r: Result<
        ContainerProcess,
        IdentityError,
    >)
        ensures
            r == spec_new_process(container_id, exec_id),
    {
        let container_id = match ContainerID::new(container_id) {
            Ok(c) => c,
            Err(e) => {
                return Err(e);
            },
        };
        if exec_id.as_str().is_empty() {
            Ok(ContainerProcess { container_id, exec_id: None })
        } else if check_id_chars(exec_id.as_str()) {
            Ok(ContainerProcess { container_id, exec_id: Some(exec_id) })
        } else {
            Err(IdentityError::InvalidExecId)
        }
    }
}

/// The internal mount record: destination and derived flags computed from a
/// wire mount descriptor. Device id and host-shared-fs path are populated
/// elsewhere and left unset here.
#[derive(Clone, Debug, PartialEq, Eq)]
pub struct Mount {
    pub source: String,
    pub destination: String,
    pub fs_type: String,
    pub options: Vec<String>,
    pub device_id: Option<String>,
    pub host_shared_fs_path: Option<String>,
    pub read_only: bool,
}

/// Process-level lifecycle state. Finer grained than the wire protocol:
/// on the wire, `Stopped` and `Exited` collapse to a single status.
#[derive(Clone, Copy, Debug, PartialEq, Eq, Structural)]
pub enum ProcessStatus {
    Unknown,
    Created,
    Running,
    Stopped,
    Paused,
    Pausing,
    Exited,
}

/// A process id.
#[derive(Clone, Copy, Debug, PartialEq, Eq, Structural)]
pub struct PID {
    pub pid: u32,
}

/// Full snapshot of a process's state; a pure query result.
#[derive(Clone, Debug, PartialEq, Eq)]
pub struct ProcessStateInfo {
    pub container_id: String,
    pub exec_id: String,
    pub pid: PID,
    pub bundle: String,
    pub status: ProcessStatus,
    pub stdin: Option<String>,
    pub stdout: Option<String>,
    pub stderr: Option<String>,
    pub terminal: bool,
    pub exit_status: i32,
    pub exited_at: Option<UnixTime>,
}

/// Minimal exit-only snapshot of a process.
#[derive(Clone, Copy, Debug, PartialEq, Eq, Structural)]
pub struct ProcessExitStatus {
    pub exit_code: i32,
    pub exit_time: Option<UnixTime>,
}

/// An opaque, type-tagged statistics payload, re-wrapped by the encoder
/// without interpretation.
#[derive(Clone, Debug, PartialEq, Eq)]
pub struct StatsValue {
    pub type_url: String,
    pub value: Vec<u8>,
}

/// A container's statistics, if the backend produced any.
#[derive(Clone, Debug, PartialEq, Eq)]
pub struct StatsInfo {
    pub value: Option<StatsValue>,
}

/// Everything needed to create a sandbox, merged by the decoder from the
/// creation request and its embedded pod-sandbox config.
#[derive(Clone, Debug, PartialEq, Eq)]
pub struct SandboxConfig {
    pub sandbox_id: String,
    pub bundle_path: String,
    pub rootfs_mounts: Vec<Mount>,
    pub type_url: String,
    pub hostname: String,
    pub annotations: Vec<(String, String)>,
    pub netns_path: String,
}

/// Identity of a sandbox, for single-target lifecycle operations.
#[derive(Clone, Debug, PartialEq, Eq)]
pub struct SandboxID {
    pub sandbox_id: String,
}

/// A graceful-stop request: target plus a timeout in seconds.
#[derive(Clone, Debug, PartialEq, Eq)]
pub struct StopSandboxRequest {
    pub sandbox_id: String,
    pub timeout_secs: u32,
}

/// A status query: target plus a verbosity flag.
#[derive(Clone, Debug, PartialEq, Eq)]
pub struct SandboxStatusRequest {
    pub sandbox_id: String,
    pub verbose: bool,
}

/// Everything needed to create a container. Stdio paths are normalized:
/// an empty string on the wire becomes `None`, never a present-but-empty
/// path.
#[derive(Clone, Debug, PartialEq, Eq)]
pub struct ContainerConfig {
    pub container_id: String,
    pub bundle: String,
    pub rootfs_mounts: Vec<Mount>,
    pub terminal: bool,
    pub options: Option<Vec<u8>>,
    pub stdin: Option<String>,
    pub stdout: Option<String>,
    pub stderr: Option<String>,
}

/// An exec request: the target process, terminal and stdio settings, and
/// the opaque process spec retained as a (type-url, bytes) pair.
#[derive(Clone, Debug, PartialEq, Eq)]
pub struct ExecProcessRequest {
    pub process: ContainerProcess,
    pub terminal: bool,
    pub stdin: Option<String>,
    pub stdout: Option<String>,
    pub stderr: Option<String>,
    pub spec_type_url: String,
    pub spec_value: Vec<u8>,
}

/// A signal delivery request.
#[derive(Clone, Debug, PartialEq, Eq)]
pub struct KillRequest {
    pub process: ContainerProcess,
    pub signal: u32,
    pub all: bool,
}

/// A terminal-resize request.
#[derive(Clone, Debug, PartialEq, Eq)]
pub struct ResizePTYRequest {
    pub process: ContainerProcess,
    pub width: u32,
    pub height: u32,
}

/// A resource-update request; the payload is passed through uninterpreted.
#[derive(Clone, Debug, PartialEq, Eq)]
pub struct UpdateRequest {
    pub container_id: String,
    pub value: Vec<u8>,
}

/// A container shutdown request.
#[derive(Clone, Debug, PartialEq, Eq)]
pub struct ShutdownRequest {
    pub container_id: String,
    pub is_now: bool,
}

/// The closed set of sandbox-management commands: the decoder's only output
/// on that surface.
#[derive(Clone, Debug, PartialEq, Eq)]
pub enum SandboxRequest {
    CreateSandbox(SandboxConfig),
    StartSandbox(SandboxID),
    Platform(SandboxID),
    StopSandbox(StopSandboxRequest),
    WaitSandbox(SandboxID),
    SandboxStatus(SandboxStatusRequest),
    Ping(SandboxID),
    ShutdownSandbox(SandboxID),
}

/// The closed set of task-management commands: the decoder's only output on
/// that surface.
#[derive(Clone, Debug, PartialEq, Eq)]
pub enum TaskRequest {
    CreateContainer(ContainerConfig),
    CloseProcessIO(ContainerProcess),
    DeleteProcess(ContainerProcess),
    ExecProcess(ExecProcessRequest),
    KillProcess(KillRequest),
    WaitProcess(ContainerProcess),
    StartProcess(ContainerProcess),
    StateProcess(ContainerProcess),
    ShutdownContainer(ShutdownRequest),
    ResizeProcessPTY(ResizePTYRequest),
    PauseContainer(ContainerID),
    ResumeContainer(ContainerID),
    StatsContainer(ContainerID),
    UpdateContainer(UpdateRequest),
    Pid,
    ConnectContainer(ContainerID),
}

/// The closed set of task-call results: the encoder's only input.
#[derive(Clone, Debug, PartialEq, Eq)]
pub enum TaskResponse {
    CreateContainer(PID),
    CloseProcessIO,
    DeleteProcess(ProcessStateInfo),
    ExecProcess,
    KillProcess,
    WaitProcess(ProcessExitStatus),
    StartProcess(PID),
    StateProcess(ProcessStateInfo),
    ShutdownContainer,
    PauseContainer,
    ResumeContainer,
    ResizeProcessPTY,
    StatsContainer(StatsInfo),
    UpdateContainer,
    Pid(PID),
    ConnectContainer(PID),
}

} // verus!
