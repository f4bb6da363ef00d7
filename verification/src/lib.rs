//! Protocol-adaptation core of a container-sandbox runtime shim.
//!
//! The crate decodes wire requests (task-management and sandbox-management
//! calls, carried as plain-value mirrors of the RPC messages) into two closed
//! internal command enums, defines the capability contract a sandbox backend
//! must satisfy, and encodes internal results back into the wire response
//! shapes the orchestrator expects, with typed handling of every mismatch.

pub mod decode;
pub mod encode;
pub mod error;
pub mod laws;
pub mod metrics;
pub mod pod_config;
pub mod sandbox;
pub mod service;
pub mod types;
pub mod wire;
