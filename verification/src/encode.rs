//! The wire response encoder: converts one internal result into the
//! specific wire response type the call site expects, and fails in a
//! uniform, typed way when the result does not match that type.

use vstd::prelude::*;
use crate::error::Error;
use crate::error::ResponseKind;
use crate::types::ProcessExitStatus;
use crate::types::ProcessStateInfo;
use crate::types::ProcessStatus;
use crate::types::TaskResponse;
use crate::types::UnixTime;
use crate::wire;

verus! {

/// The seconds field a wall-clock instant encodes to: pre-epoch instants and
/// instants past the representable range both fall back to zero.
pub open spec fn spec_timestamp_secs(t: UnixTime) -> i64 {
    match t.secs_since_epoch {
        None => 0,
        Some(s) => if s <= i64::MAX as u64 {
            s as i64
        } else {
            0
        },
    }
}

/// What a wall-clock instant encodes to on the wire.
pub open spec fn spec_timestamp_of(t: UnixTime) -> wire::Timestamp {
    wire::Timestamp { seconds: spec_timestamp_secs(t), nanos: 0 }
}

/// Encodes a wall-clock instant as a wire timestamp.
pub fn system_time_into(time: UnixTime) -> (r: wire::Timestamp)
    ensures
        r == spec_timestamp_of(time),
{
    let seconds: i64 = match time.secs_since_epoch {
        None => 0,
        Some(s) => if s <= i64::MAX as u64 {
            s as i64
        } else {
            0
        },
    };
    wire::Timestamp { seconds, nanos: 0 }
}

/// What an optional instant encodes to: absent stays absent — "no timestamp
/// set", never epoch zero.
pub open spec fn spec_opt_timestamp_of(t: Option<UnixTime>) -> Option<wire::Timestamp> {
    match t {
        None => None,
        Some(u) => Some(spec_timestamp_of(u)),
    }
}

/// Encodes an optional wall-clock instant; absent timestamps are encoded as
/// "no timestamp set", never as epoch zero.
pub fn option_system_time_into(time: Option<UnixTime>) -> (r: Option<wire::Timestamp>)
    ensures
        r == spec_opt_timestamp_of(time),
{
    match time {
        Some(v) => Some(system_time_into(v)),
        None => None,
    }
}

/// The wire's view of an exit code: the code's two's-complement bits read as
/// an unsigned number.
pub open spec fn spec_exit_status_wire(code: i32) -> u32 {
    if code >= 0 {
        code as u32
    } else {
        (code + 0x1_0000_0000) as u32
    }
}

/// Re-encodes an exit code for the wire.
pub fn exit_status_wire(code: i32) -> (r: u32)
    ensures
        r == spec_exit_status_wire(code),
{
    if code >= 0 {
        code as u32
    } else {
        ((code as i64) + 0x1_0000_0000i64) as u32
    }
}

/// The total mapping from internal process status to wire status. Order
/// preserving, except that `Stopped` and `Exited` deliberately collapse to
/// the single wire `Stopped`: the wire protocol is coarser than the internal
/// state, and orchestrator compatibility depends on the collapse.
pub open spec fn spec_status_wire(s: ProcessStatus) -> wire::Status {
    match s {
        ProcessStatus::Unknown => wire::Status::Unknown,
        ProcessStatus::Created => wire::Status::Created,
        ProcessStatus::Running => wire::Status::Running,
        ProcessStatus::Stopped => wire::Status::Stopped,
        ProcessStatus::Paused => wire::Status::Paused,
        ProcessStatus::Pausing => wire::Status::Pausing,
        ProcessStatus::Exited => wire::Status::Stopped,
    }
}

/// Encodes a process status for the wire.
pub fn status_into(s: ProcessStatus) -> (r: wire::Status)
    ensures
        r == spec_status_wire(s),
{
    match s {
        ProcessStatus::Unknown => wire::Status::Unknown,
        ProcessStatus::Created => wire::Status::Created,
        ProcessStatus::Running => wire::Status::Running,
        ProcessStatus::Stopped => wire::Status::Stopped,
        ProcessStatus::Paused => wire::Status::Paused,
        ProcessStatus::Pausing => wire::Status::Pausing,
        ProcessStatus::Exited => wire::Status::Stopped,
    }
}

/// What a process exit snapshot encodes to.
pub open spec fn spec_wait_response_of(e: ProcessExitStatus) -> wire::WaitResponse {
    wire::WaitResponse {
        exit_status: spec_exit_status_wire(e.exit_code),
        exited_at: spec_opt_timestamp_of(e.exit_time),
    }
}

/// Encodes a process exit snapshot as a wait response.
pub fn wait_response_from(e: ProcessExitStatus) -> (r: wire::WaitResponse)
    ensures
        r == spec_wait_response_of(e),
{
    wire::WaitResponse {
        exit_status: exit_status_wire(e.exit_code),
        exited_at: option_system_time_into(e.exit_time),
    }
}

/// How an internal stdio path reaches the wire: an absent path becomes the
/// empty string.
pub open spec fn stdio_wire_of(o: Option<String>) -> Seq<char> {
    match o {
        Some(p) => p@,
        None => Seq::<char>::empty(),
    }
}

/// Materializes an optional stdio path for the wire.
fn stdio_wire(o: Option<String>) -> (r: String)
    ensures
        r@ == stdio_wire_of(o),
{
    match o {
        Some(p) => p,
        None => String::new(),
    }
}

/// Encodes a full process state snapshot as a state response: every field
/// carried over, absent stdio paths encoded as empty strings, the status
/// collapsed as `spec_status_wire` says.
pub fn state_response_from(s: ProcessStateInfo) -> (r: wire::StateResponse)
    ensures
        r.id == s.container_id,
        r.bundle == s.bundle,
        r.pid == s.pid.pid,
        r.status == spec_status_wire(s.status),
        r.stdin@ == stdio_wire_of(s.stdin),
        r.stdout@ == stdio_wire_of(s.stdout),
        r.stderr@ == stdio_wire_of(s.stderr),
        r.terminal == s.terminal,
        r.exit_status == spec_exit_status_wire(s.exit_status),
        r.exited_at == spec_opt_timestamp_of(s.exited_at),
        r.exec_id == s.exec_id,
{
    wire::StateResponse {
        id: s.container_id,
        bundle: s.bundle,
        pid: s.pid.pid,
        status: status_into(s.status),
        stdin: stdio_wire(s.stdin),
        stdout: stdio_wire(s.stdout),
        stderr: stdio_wire(s.stderr),
        terminal: s.terminal,
        exit_status: exit_status_wire(s.exit_status),
        exited_at: option_system_time_into(s.exited_at),
        exec_id: s.exec_id,
    }
}

/// What a full process state snapshot encodes to when only the deletion
/// summary is wanted.
pub open spec fn spec_delete_response_of(s: ProcessStateInfo) -> wire::DeleteResponse {
    wire::DeleteResponse {
        pid: s.pid.pid,
        exit_status: spec_exit_status_wire(s.exit_status),
        exited_at: spec_opt_timestamp_of(s.exited_at),
    }
}

/// Encodes a process state snapshot as a delete response.
pub fn delete_response_from(s: ProcessStateInfo) -> (r: wire::DeleteResponse)
    ensures
        r == spec_delete_response_of(s),
{
    wire::DeleteResponse {
        pid: s.pid.pid,
        exit_status: exit_status_wire(s.exit_status),
        exited_at: option_system_time_into(s.exited_at),
    }
}

/// Encodes the result of a container creation. Exactly the
/// `CreateContainer` variant matches; every other result is the typed
/// mismatch error carrying the value and the requested response type.
pub fn encode_create_task_response(resp: TaskResponse) -> (r: Result<
    wire::CreateTaskResponse,
    Error,
>)
    ensures
        resp matches TaskResponse::CreateContainer(p) ==> r == Ok::<_, Error>(
            wire::CreateTaskResponse { pid: p.pid },
        ),
        !(resp matches TaskResponse::CreateContainer(_)) ==> r == Err::<wire::CreateTaskResponse, _>(
            Error::UnexpectedResponse { response: resp, expected: ResponseKind::CreateTask },
        ),
{
    match resp {
        TaskResponse::CreateContainer(p) => Ok(wire::CreateTaskResponse { pid: p.pid }),
        _ => Err(
            Error::UnexpectedResponse { response: resp, expected: ResponseKind::CreateTask },
        ),
    }
}

/// Encodes the result of a process deletion.
pub fn encode_delete_response(resp: TaskResponse) -> (r: Result<wire::DeleteResponse, Error>)
    ensures
        resp matches TaskResponse::DeleteProcess(s) ==> r == Ok::<_, Error>(
            spec_delete_response_of(s),
        ),
        !(resp matches TaskResponse::DeleteProcess(_)) ==> r == Err::<wire::DeleteResponse, _>(
            Error::UnexpectedResponse { response: resp, expected: ResponseKind::Delete },
        ),
{
    match resp {
        TaskResponse::DeleteProcess(s) => Ok(delete_response_from(s)),
        _ => Err(Error::UnexpectedResponse { response: resp, expected: ResponseKind::Delete }),
    }
}

/// Encodes the result of a process wait.
pub fn encode_wait_response(resp: TaskResponse) -> (r: Result<wire::WaitResponse, Error>)
    ensures
        resp matches TaskResponse::WaitProcess(e) ==> r == Ok::<_, Error>(
            spec_wait_response_of(e),
        ),
        !(resp matches TaskResponse::WaitProcess(_)) ==> r == Err::<wire::WaitResponse, _>(
            Error::UnexpectedResponse { response: resp, expected: ResponseKind::Wait },
        ),
{
    match resp {
        TaskResponse::WaitProcess(e) => Ok(wait_response_from(e)),
        _ => Err(Error::UnexpectedResponse { response: resp, expected: ResponseKind::Wait }),
    }
}

/// Encodes the result of a process start.
pub fn encode_start_response(resp: TaskResponse) -> (r: Result<wire::StartResponse, Error>)
    ensures
        resp matches TaskResponse::StartProcess(p) ==> r == Ok::<_, Error>(
            wire::StartResponse { pid: p.pid },
        ),
        !(resp matches TaskResponse::StartProcess(_)) ==> r == Err::<wire::StartResponse, _>(
            Error::UnexpectedResponse { response: resp, expected: ResponseKind::Start },
        ),
{
    match resp {
        TaskResponse::StartProcess(p) => Ok(wire::StartResponse { pid: p.pid }),
        _ => Err(Error::UnexpectedResponse { response: resp, expected: ResponseKind::Start }),
    }
}

/// Encodes the result of a state query.
pub fn encode_state_response(resp: TaskResponse) -> (r: Result<wire::StateResponse, Error>)
    ensures
        resp matches TaskResponse::StateProcess(s) ==> r matches Ok(w) && w.id == s.container_id
            && w.bundle == s.bundle && w.pid == s.pid.pid && w.status == spec_status_wire(s.status)
            && w.stdin@ == stdio_wire_of(s.stdin) && w.stdout@ == stdio_wire_of(s.stdout)
            && w.stderr@ == stdio_wire_of(s.stderr) && w.terminal == s.terminal && w.exit_status
            == spec_exit_status_wire(s.exit_status) && w.exited_at == spec_opt_timestamp_of(
            s.exited_at,
        ) && w.exec_id == s.exec_id,
        !(resp matches TaskResponse::StateProcess(_)) ==> r == Err::<wire::StateResponse, _>(
            Error::UnexpectedResponse { response: resp, expected: ResponseKind::State },
        ),
{
    match resp {
        TaskResponse::StateProcess(s) => Ok(state_response_from(s)),
        _ => Err(Error::UnexpectedResponse { response: resp, expected: ResponseKind::State }),
    }
}

/// Encodes a statistics result: the opaque typed payload is re-wrapped
/// without interpretation; a backend that produced none yields an absent
/// stats field.
pub fn encode_stats_response(resp: TaskResponse) -> (r: Result<wire::StatsResponse, Error>)
    ensures
        resp matches TaskResponse::StatsContainer(info) ==> r matches Ok(w) && (match info.value {
            Some(v) => w.stats == Some(wire::Any { type_url: v.type_url, value: v.value }),
            None => w.stats is None,
        }),
        !(resp matches TaskResponse::StatsContainer(_)) ==> r == Err::<wire::StatsResponse, _>(
            Error::UnexpectedResponse { response: resp, expected: ResponseKind::Stats },
        ),
{
    match resp {
        TaskResponse::StatsContainer(info) => {
            let stats = match info.value {
                Some(v) => Some(wire::Any { type_url: v.type_url, value: v.value }),
                None => None,
            };
            Ok(wire::StatsResponse { stats })
        },
        _ => Err(Error::UnexpectedResponse { response: resp, expected: ResponseKind::Stats }),
    }
}

/// Encodes a pid listing: the single reported process id, as the wire's
/// process-info list.
pub fn encode_pids_response(resp: TaskResponse) -> (r: Result<wire::PidsResponse, Error>)
    ensures
        resp matches TaskResponse::Pid(p) ==> r matches Ok(w) && w.processes@ == seq![
            wire::ProcessInfo { pid: p.pid },
        ],
        !(resp matches TaskResponse::Pid(_)) ==> r == Err::<wire::PidsResponse, _>(
            Error::UnexpectedResponse { response: resp, expected: ResponseKind::Pids },
        ),
{
    match resp {
        TaskResponse::Pid(p) => {
            let mut processes: Vec<wire::ProcessInfo> = Vec::new();
            processes.push(wire::ProcessInfo { pid: p.pid });
            proof {
                assert(processes@ =~= seq![wire::ProcessInfo { pid: p.pid }]);
            }
            Ok(wire::PidsResponse { processes })
        },
        _ => Err(Error::UnexpectedResponse { response: resp, expected: ResponseKind::Pids }),
    }
}

/// Encodes a connect result: the shim's pid.
pub fn encode_connect_response(resp: TaskResponse) -> (r: Result<wire::ConnectResponse, Error>)
    ensures
        resp matches TaskResponse::ConnectContainer(p) ==> r == Ok::<_, Error>(
            wire::ConnectResponse { shim_pid: p.pid },
        ),
        !(resp matches TaskResponse::ConnectContainer(_)) ==> r == Err::<wire::ConnectResponse, _>(
            Error::UnexpectedResponse { response: resp, expected: ResponseKind::Connect },
        ),
{
    match resp {
        TaskResponse::ConnectContainer(p) => Ok(wire::ConnectResponse { shim_pid: p.pid }),
        _ => Err(Error::UnexpectedResponse { response: resp, expected: ResponseKind::Connect }),
    }
}

/// True of exactly the fire-and-forget results that encode to the
/// payload-free wire acknowledgment.
pub open spec fn is_empty_ack(resp: TaskResponse) -> bool {
    ||| resp is CloseProcessIO
    ||| resp is ExecProcess
    ||| resp is KillProcess
    ||| resp is ShutdownContainer
    ||| resp is PauseContainer
    ||| resp is ResumeContainer
    ||| resp is ResizeProcessPTY
    ||| resp is UpdateContainer
}

/// Encodes a fire-and-forget result as the shared payload-free wire
/// acknowledgment; any other result is the typed mismatch error.
pub fn encode_empty(resp: TaskResponse) -> (r: Result<wire::Empty, Error>)
    ensures
        is_empty_ack(resp) ==> r == Ok::<_, Error>(wire::Empty {  }),
        !is_empty_ack(resp) ==> r == Err::<wire::Empty, _>(
            Error::UnexpectedResponse { response: resp, expected: ResponseKind::Empty },
        ),
{
    match resp {
        TaskResponse::CloseProcessIO => Ok(wire::Empty {  }),
        TaskResponse::ExecProcess => Ok(wire::Empty {  }),
        TaskResponse::KillProcess => Ok(wire::Empty {  }),
        TaskResponse::ShutdownContainer => Ok(wire::Empty {  }),
        TaskResponse::PauseContainer => Ok(wire::Empty {  }),
        TaskResponse::ResumeContainer => Ok(wire::Empty {  }),
        TaskResponse::ResizeProcessPTY => Ok(wire::Empty {  }),
        TaskResponse::UpdateContainer => Ok(wire::Empty {  }),
        _ => Err(Error::UnexpectedResponse { response: resp, expected: ResponseKind::Empty }),
    }
}

} // verus!
