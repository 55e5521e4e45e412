//! The build-time error of this crate.

use vstd::prelude::*;

verus! {

/// The one error this crate ever returns. It is raised only while an
/// adapter is being built, when the metrics registry refuses a
/// registration (a colliding metric name, or invalid metric metadata);
/// the hot logging path never originates an error of its own.
#[derive(Debug)]
pub enum MonitoringDrainError {
    /// The error the prometheus registry reported.
    Prometheus(prometheus::Error),
}

} // verus!
