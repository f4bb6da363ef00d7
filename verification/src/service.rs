//! The decision logic of the RPC service layer: what the service derives
//! from a decoded command before and after calling the backend. The service
//! itself (transport, logging, handler plumbing) is an external collaborator
//! and contributes nothing else.

use vstd::prelude::*;
use crate::sandbox::CreateOpt;
use crate::sandbox::SandboxNetworkEnv;
use crate::sandbox::SandboxStatus;
use crate::types::SandboxConfig;
use crate::wire;

verus! {

/// Copies an annotation list.
fn clone_annotations(v: &Vec<(String, String)>) -> (r: Vec<(String, String)>)
    ensures
        r@ == v@,
{
    let mut out: Vec<(String, String)> = Vec::new();
    let mut i: usize = 0;
    while i < v.len()
        invariant
            i <= v@.len(),
            out@ =~= v@.take(i as int),
        decreases v@.len() - i,
    {
        let p = &v[i];
        out.push((p.0.clone(), p.1.clone()));
        proof {
            assert(out@ =~= v@.take(i + 1));
        }
        i = i + 1;
    }
    proof {
        assert(v@.take(v@.len() as int) =~= v@);
    }
    out
}

/// The "create sandbox" argument bundle the service hands the backend: the
/// hostname and annotations from the embedded config, no DNS servers, and a
/// network environment naming the request's network-namespace path as
/// pre-existing.
pub fn sandbox_create_opt(config: &SandboxConfig) -> (r: CreateOpt)
    ensures
        r.hostname == config.hostname,
        r.dns@ == Seq::<String>::empty(),
        r.network_env == (SandboxNetworkEnv {
            netns: Some(config.netns_path),
            network_created: false,
        }),
        r.annotations@ == config.annotations@,
{
    CreateOpt {
        hostname: config.hostname.clone(),
        dns: Vec::new(),
        network_env: SandboxNetworkEnv {
            netns: Some(config.netns_path.clone()),
            network_created: false,
        },
        annotations: clone_annotations(&config.annotations),
    }
}

/// The platform the service reports: a fixed host label pair.
pub fn platform_response() -> (r: wire::PlatformResponse)
    ensures
        r.os@ == "linux"@,
        r.architecture@ == "amd64"@,
{
    wire::PlatformResponse {
        os: String::from_str("linux"),
        architecture: String::from_str("amd64"),
    }
}

/// The wire status response built from a backend status snapshot: identity,
/// process id and state label carried over.
pub fn sandbox_status_response(status: SandboxStatus) -> (r: wire::SandboxStatusResponse)
    ensures
        r.sandbox_id == status.sandbox_id,
        r.pid == status.pid,
        r.state == status.state,
{
    wire::SandboxStatusResponse {
        sandbox_id: status.sandbox_id,
        pid: status.pid,
        state: status.state,
    }
}

} // verus!
