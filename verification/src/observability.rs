//! The settings of the tracing bootstrap.

use vstd::prelude::*;

verus! {

/// The name of the environment variable that holds the collector's address.
pub const OTLP_ENDPOINT_ENV: &'static str = "OTEL_EXPORTER_OTLP_ENDPOINT";

/// The address of a collector on the same machine.
pub const DEFAULT_OTLP_ENDPOINT: &'static str = "http://localhost:4317";

/// The log filter of a service whose environment sets none.
pub const DEFAULT_FILTER: &'static str = "info,actix_web=info";

/// The name under which a service's tracer is registered.
pub const TRACER_NAME: &'static str = "tracing-otel-subscriber";

/// The resource attribute that carries the service's name.
pub const SERVICE_NAME_KEY: &'static str = "service.name";

/// The collector's address: the configured one, or that of a collector on the
/// same machine where none is configured.
pub fn otlp_endpoint<'a>(configured: Option<&'a str>) -> (endpoint: &'a str)
    ensures
        endpoint@ == match configured {
            Some(address) => address@,
            None => DEFAULT_OTLP_ENDPOINT@,
        },
{
    match configured {
        Some(address) => address,
        None => DEFAULT_OTLP_ENDPOINT,
    }
}

} // verus!
