//! The sandbox lifecycle contract: the capability set any sandbox backend
//! must expose, together with the value types its operations exchange.
//! The backend exclusively owns whatever long-lived sandbox state exists;
//! this core never holds it.

use vstd::prelude::*;
use crate::types::TimeSpan;
use crate::wire::Any;

verus! {

/// Optional network-namespace identifier plus whether the namespace was
/// freshly created (as opposed to pre-existing).
#[derive(Clone, Debug, PartialEq, Eq)]
pub struct SandboxNetworkEnv {
    pub netns: Option<String>,
    pub network_created: bool,
}

/// The normalized "create sandbox" argument bundle.
#[derive(Clone, Debug, PartialEq, Eq)]
pub struct CreateOpt {
    pub hostname: String,
    pub dns: Vec<String>,
    pub network_env: SandboxNetworkEnv,
    pub annotations: Vec<(String, String)>,
}

/// A status snapshot as the backend reports it; before creation the backend
/// answers with the zero/empty default.
#[derive(Clone, Debug, PartialEq, Eq)]
pub struct SandboxStatus {
    pub sandbox_id: String,
    pub pid: u32,
    pub state: String,
    pub info: Vec<(String, String)>,
    pub create_at: TimeSpan,
    pub exited_at: TimeSpan,
}

impl Default for SandboxStatus {
    /// The zero/empty snapshot: what a status query returns best-effort
    /// before the sandbox exists.
    fn default() -> (r: SandboxStatus)
        ensures
            r.sandbox_id@ == Seq::<char>::empty(),
            r.pid == 0,
            r.state@ == Seq::<char>::empty(),
            r.info@ == Seq::<(String, String)>::empty(),
            r.create_at == (TimeSpan { secs: 0, nanos: 0 }),
            r.exited_at == (TimeSpan { secs: 0, nanos: 0 }),
    {
        SandboxStatus {
            sandbox_id: String::new(),
            pid: 0,
            state: String::new(),
            info: Vec::new(),
            create_at: TimeSpan { secs: 0, nanos: 0 },
            exited_at: TimeSpan { secs: 0, nanos: 0 },
        }
    }
}

/// An error raised inside a backend; this core does not interpret it, only
/// forwards it to the RPC boundary.
#[derive(Clone, Debug, PartialEq, Eq)]
pub struct BackendError {
    pub message: String,
}

/// A directly-attached-volume resize order, passed through to the backend.
#[derive(Clone, Debug, PartialEq, Eq)]
pub struct ResizeVolumeRequest {
    pub volume_guest_path: String,
    pub size: u64,
}

/// The capability set a sandbox backend must implement. The decoder's
/// commands are eventually routed to exactly these operations; any
/// implementation satisfying them is acceptable.
///
/// The implied state machine is Uncreated -> Created -> Running ->
/// {Stopped, Exited} -> Cleaned-up. Implementations must serialize their own
/// lifecycle transitions while allowing concurrent read-only calls; `stop`
/// must be safe to call repeatedly, and `cleanup` reclaims resources after
/// `stop` so callers can keep introspecting a just-terminated sandbox until
/// then. Each operation either fully succeeds or signals failure: no
/// partial success.
pub trait Sandbox {
    /// Provisions a sandbox; must fail cleanly, leaving no partial state
    /// reachable by later calls.
    fn create(&self, opt: &CreateOpt) -> Result<(), BackendError>;

    /// Transitions a created sandbox to running; only valid after `create`
    /// succeeded.
    fn start(&self) -> Result<(), BackendError>;

    /// Single-shot create-and-start of a workload described by an OCI-style
    /// spec/state pair, carried as opaque type-tagged payloads this layer
    /// does not interpret.
    fn run(
        &self,
        dns: Vec<String>,
        spec: &Any,
        state: &Any,
        network_env: SandboxNetworkEnv,
    ) -> Result<(), BackendError>;

    /// Returns a status snapshot; safe at any point in the lifecycle.
    fn status(&self) -> Result<SandboxStatus, BackendError>;

    /// Blocks until the sandbox's primary workload exits; returns promptly
    /// for an already-exited sandbox.
    fn wait(&self) -> Result<(), BackendError>;

    /// Requests termination; must not fail merely because the sandbox is
    /// already stopped.
    fn stop(&self) -> Result<(), BackendError>;

    /// Releases all resources after `stop`.
    fn cleanup(&self) -> Result<(), BackendError>;

    /// Full teardown of sandbox-level infrastructure, for the
    /// sandbox-management surface.
    fn shutdown(&self) -> Result<(), BackendError>;

    /// Pass-through write access to the namespace's firewall rules.
    fn set_iptables(&self, is_ipv6: bool, data: Vec<u8>) -> Result<Vec<u8>, BackendError>;

    /// Pass-through read access to the namespace's firewall rules.
    fn get_iptables(&self, is_ipv6: bool) -> Result<Vec<u8>, BackendError>;

    /// Pass-through introspection of a directly-attached volume.
    fn direct_volume_stats(&self, volume_path: &str) -> Result<String, BackendError>;

    /// Pass-through resize of a directly-attached volume.
    fn direct_volume_resize(&self, resize_req: ResizeVolumeRequest) -> Result<(), BackendError>;

    /// The address of the in-sandbox control channel, for collaborators
    /// needing a direct channel.
    fn agent_sock(&self) -> Result<String, BackendError>;
}

} // verus!
