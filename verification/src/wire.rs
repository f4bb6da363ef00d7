//! Plain-value mirrors of the wire messages this layer exchanges with the
//! RPC transport. Each struct holds exactly the fields the core reads or
//! fills; the transport converts between these and its own message types.

use vstd::prelude::*;

verus! {

/// A type-tagged opaque payload: the wire's way of embedding a message whose
/// schema this layer does not interpret.
#[derive(Clone, Debug, PartialEq, Eq)]
pub struct Any {
    pub type_url: String,
    pub value: Vec<u8>,
}

/// A wire mount descriptor.
#[derive(Clone, Debug, PartialEq, Eq)]
pub struct Mount {
    pub source: String,
    pub target: String,
    pub fs_type: String,
    pub options: Vec<String>,
}

/// A point in time as the wire carries it: seconds and nanoseconds since the
/// Unix epoch.
#[derive(Clone, Copy, Debug, PartialEq, Eq, Structural)]
pub struct Timestamp {
    pub seconds: i64,
    pub nanos: i32,
}

/// Sandbox-creation request: identity, bundle, rootfs mounts, the embedded
/// config as a type-tagged payload, and the network-namespace path.
#[derive(Clone, Debug, PartialEq, Eq)]
pub struct CreateSandboxRequest {
    pub sandbox_id: String,
    pub bundle_path: String,
    pub rootfs: Vec<Mount>,
    pub options: Any,
    pub netns_path: String,
}

#[derive(Clone, Debug, PartialEq, Eq)]
pub struct StartSandboxRequest {
    pub sandbox_id: String,
}

#[derive(Clone, Debug, PartialEq, Eq)]
pub struct PlatformRequest {
    pub sandbox_id: String,
}

#[derive(Clone, Debug, PartialEq, Eq)]
pub struct StopSandboxRequest {
    pub sandbox_id: String,
    pub timeout_secs: u32,
}

#[derive(Clone, Debug, PartialEq, Eq)]
pub struct WaitSandboxRequest {
    pub sandbox_id: String,
}

#[derive(Clone, Debug, PartialEq, Eq)]
pub struct SandboxStatusRequest {
    pub sandbox_id: String,
    pub verbose: bool,
}

#[derive(Clone, Debug, PartialEq, Eq)]
pub struct PingRequest {
    pub sandbox_id: String,
}

#[derive(Clone, Debug, PartialEq, Eq)]
pub struct ShutdownSandboxRequest {
    pub sandbox_id: String,
}

/// Task-creation request; absent options arrive as `None`.
#[derive(Clone, Debug, PartialEq, Eq)]
pub struct CreateTaskRequest {
    pub id: String,
    pub bundle: String,
    pub rootfs: Vec<Mount>,
    pub terminal: bool,
    pub stdin: String,
    pub stdout: String,
    pub stderr: String,
    pub options: Option<Any>,
}

#[derive(Clone, Debug, PartialEq, Eq)]
pub struct CloseIORequest {
    pub id: String,
    pub exec_id: String,
}

#[derive(Clone, Debug, PartialEq, Eq)]
pub struct DeleteRequest {
    pub id: String,
    pub exec_id: String,
}

/// Exec request; an absent spec message arrives as the empty payload,
/// matching the wire's absent-message defaults.
#[derive(Clone, Debug, PartialEq, Eq)]
pub struct ExecProcessRequest {
    pub id: String,
    pub exec_id: String,
    pub terminal: bool,
    pub stdin: String,
    pub stdout: String,
    pub stderr: String,
    pub spec: Any,
}

#[derive(Clone, Debug, PartialEq, Eq)]
pub struct KillRequest {
    pub id: String,
    pub exec_id: String,
    pub signal: u32,
    pub all: bool,
}

#[derive(Clone, Debug, PartialEq, Eq)]
pub struct WaitRequest {
    pub id: String,
    pub exec_id: String,
}

#[derive(Clone, Debug, PartialEq, Eq)]
pub struct StartRequest {
    pub id: String,
    pub exec_id: String,
}

#[derive(Clone, Debug, PartialEq, Eq)]
pub struct StateRequest {
    pub id: String,
    pub exec_id: String,
}

#[derive(Clone, Debug, PartialEq, Eq)]
pub struct ShutdownRequest {
    pub id: String,
    pub now: bool,
}

#[derive(Clone, Debug, PartialEq, Eq)]
pub struct ResizePtyRequest {
    pub id: String,
    pub exec_id: String,
    pub width: u32,
    pub height: u32,
}

#[derive(Clone, Debug, PartialEq, Eq)]
pub struct PauseRequest {
    pub id: String,
}

#[derive(Clone, Debug, PartialEq, Eq)]
pub struct ResumeRequest {
    pub id: String,
}

#[derive(Clone, Debug, PartialEq, Eq)]
pub struct StatsRequest {
    pub id: String,
}

/// Resource-update request; an absent resources message arrives as the
/// empty payload, matching the wire's absent-message defaults.
#[derive(Clone, Debug, PartialEq, Eq)]
pub struct UpdateTaskRequest {
    pub id: String,
    pub resources: Any,
}

#[derive(Clone, Debug, PartialEq, Eq)]
pub struct PidsRequest {
    pub id: String,
}

#[derive(Clone, Debug, PartialEq, Eq)]
pub struct ConnectRequest {
    pub id: String,
}

/// The process status values the wire protocol exposes. There is no wire
/// counterpart of the internal `Exited`: it collapses to `Stopped`.
#[derive(Clone, Copy, Debug, PartialEq, Eq, Structural)]
pub enum Status {
    Unknown,
    Created,
    Running,
    Stopped,
    Paused,
    Pausing,
}

/// Wait response; an absent exit timestamp is encoded as `None`, never as
/// epoch zero.
#[derive(Clone, Copy, Debug, PartialEq, Eq, Structural)]
pub struct WaitResponse {
    pub exit_status: u32,
    pub exited_at: Option<Timestamp>,
}

#[derive(Clone, Debug, PartialEq, Eq)]
pub struct StateResponse {
    pub id: String,
    pub bundle: String,
    pub pid: u32,
    pub status: Status,
    pub stdin: String,
    pub stdout: String,
    pub stderr: String,
    pub terminal: bool,
    pub exit_status: u32,
    pub exited_at: Option<Timestamp>,
    pub exec_id: String,
}

#[derive(Clone, Copy, Debug, PartialEq, Eq, Structural)]
pub struct DeleteResponse {
    pub pid: u32,
    pub exit_status: u32,
    pub exited_at: Option<Timestamp>,
}

#[derive(Clone, Copy, Debug, PartialEq, Eq, Structural)]
pub struct CreateTaskResponse {
    pub pid: u32,
}

#[derive(Clone, Copy, Debug, PartialEq, Eq, Structural)]
pub struct StartResponse {
    pub pid: u32,
}

#[derive(Clone, Debug, PartialEq, Eq)]
pub struct StatsResponse {
    pub stats: Option<Any>,
}

#[derive(Clone, Copy, Debug, PartialEq, Eq, Structural)]
pub struct ProcessInfo {
    pub pid: u32,
}

#[derive(Clone, Debug, PartialEq, Eq)]
pub struct PidsResponse {
    pub processes: Vec<ProcessInfo>,
}

#[derive(Clone, Copy, Debug, PartialEq, Eq, Structural)]
pub struct ConnectResponse {
    pub shim_pid: u32,
}

/// The payload-free wire acknowledgment shared by every fire-and-forget
/// call.
#[derive(Clone, Copy, Debug, PartialEq, Eq, Structural)]
pub struct Empty {}

/// Sandbox status response as the sandbox-management surface returns it.
#[derive(Clone, Debug, PartialEq, Eq)]
pub struct SandboxStatusResponse {
    pub sandbox_id: String,
    pub pid: u32,
    pub state: String,
}

/// Platform response: the host operating system and architecture labels.
#[derive(Clone, Debug, PartialEq, Eq)]
pub struct PlatformResponse {
    pub os: String,
    pub architecture: String,
}

} // verus!
