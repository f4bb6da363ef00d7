//! Registration of the monitor's own metrics with an explicitly
//! constructed, injected registry. Gathering and encoding the metrics, and
//! sampling the process's file-descriptor and memory figures, are the
//! monitor process's own business, outside this core.

use vstd::prelude::*;
use crate::error::Error;

verus! {

#[verifier::external_type_specification]
#[verifier::external_body]
pub struct ExRegistry(prometheus::Registry);

/// A handle on a prometheus integer counter. The counter's type takes its
/// atomic-storage parameter through a trait of its own crate, which cannot
/// be declared here, so the handle is held opaquely.
#[verifier::external_body]
pub struct IntCounterHandle {
    pub counter: prometheus::IntCounter,
}

/// A handle on a prometheus gauge, held opaquely for the same reason.
#[verifier::external_body]
pub struct GaugeHandle {
    pub gauge: prometheus::Gauge,
}

/// Relies on prometheus::Registry::register: adds a copy of the counter to
/// the registry's collector set, or reports why it cannot (a duplicate
/// registration, an inconsistent descriptor), rendered through the error's
/// Display impl.
#[verifier::external_body]
fn register_int_counter(registry: &prometheus::Registry, c: &IntCounterHandle) -> (r: Result<
    (),
    String,
>) {
    registry.register(Box::new(c.counter.clone())).map_err(|e| format!("{}", e))
}

/// Relies on prometheus::Registry::register: adds a copy of the gauge to the
/// registry's collector set, or reports why it cannot, rendered through the
/// error's Display impl.
#[verifier::external_body]
fn register_gauge(registry: &prometheus::Registry, g: &GaugeHandle) -> (r: Result<(), String>) {
    registry.register(Box::new(g.gauge.clone())).map_err(|e| format!("{}", e))
}

/// Registers the monitor's metrics — the scrape counter and the
/// file-descriptor and resident-memory gauges — with the given registry.
/// Intended to be called once at startup; a second registration fails, and
/// the failure is forwarded as a backend error.
pub fn register_metrics(
    registry: &prometheus::Registry,
    scrape_count: &IntCounterHandle,
    max_fds: &GaugeHandle,
    open_fds: &GaugeHandle,
    resident_memory: &GaugeHandle,
) -> (r: Result<(), Error>)
    ensures
        r matches Err(e) ==> e is BackendFailure,
{
    match register_int_counter(registry, scrape_count) {
        Ok(_) => (),
        Err(message) => {
            return Err(Error::BackendFailure { message });
        },
    }
    match register_gauge(registry, max_fds) {
        Ok(_) => (),
        Err(message) => {
            return Err(Error::BackendFailure { message });
        },
    }
    match register_gauge(registry, open_fds) {
        Ok(_) => (),
        Err(message) => {
            return Err(Error::BackendFailure { message });
        },
    }
    match register_gauge(registry, resident_memory) {
        Ok(_) => (),
        Err(message) => {
            return Err(Error::BackendFailure { message });
        },
    }
    Ok(())
}

} // verus!
