use vstd::prelude::*;

verus! {

/// Why a metric could not be produced.
#[derive(Debug, Clone, Copy, PartialEq, Eq, Structural)]
pub enum MetricError {
    /// The file or device that backs the metric is missing or inaccessible.
    SourceUnavailable,
    /// The source had content that does not match the expected structure.
    MalformedData,
    /// The architecture or feature is not recognized.
    UnsupportedPlatform,
    /// The sampling window was empty or the clock did not advance.
    MeasurementError,
    /// Sampling was interrupted before it completed.
    Cancelled,
}

} // verus!
