//! Which diagnostics the picker writes.
use vstd::prelude::*;

verus! {

/// Where the tracing filter comes from.
#[derive(Debug, Clone, Copy, PartialEq, Eq, Structural)]
pub enum LogFilter {
    /// No diagnostics.
    Off,
    /// The filter in `RUST_LOG`, or tracing of this crate when that does not parse.
    FromEnvironment,
    /// Tracing of this crate.
    CrateTrace,
}

/// The filter: `RUST_LOG` when it is set, else tracing of this crate when
/// `--trace` is given, else none.
pub fn log_filter(trace_enabled: bool, rust_log_set: bool) -> (r: LogFilter)
    ensures
        rust_log_set ==> r == LogFilter::FromEnvironment,
        !rust_log_set && trace_enabled ==> r == LogFilter::CrateTrace,
        !rust_log_set && !trace_enabled ==> r == LogFilter::Off,
{
    if rust_log_set {
        LogFilter::FromEnvironment
    } else if trace_enabled {
        LogFilter::CrateTrace
    } else {
        LogFilter::Off
    }
}

/// The directive that traces this crate.
pub fn crate_trace_directive() -> (r: &'static str)
    ensures
        r@ == "pmenu=trace"@,
{
    "pmenu=trace"
}

} // verus!
