//! The failure taxonomy of an orchestration run.

use vstd::prelude::*;

verus! {

/// Every failure an orchestration run can surface, one variant per stage.
/// A run never recovers from any of these: the first one aborts the run.
#[derive(Clone, Copy, Debug, PartialEq, Eq, Structural)]
pub enum DeployError {
    /// Incompatible options: a private spending record combined with
    /// recursive multi-unit mode.
    Configuration,
    /// The locked dependency graph is malformed or admits no
    /// dependency-respecting deployment order.
    DependencyResolution,
    /// No usable private key was found.
    KeyResolution,
    /// A build artifact could not be opened at its expected path.
    Package,
    /// The spending record is invalid or cannot cover the requested cost,
    /// or the fee authorization could not be constructed.
    Fee,
    /// Transaction construction failed after a valid fee authorization.
    Assembly,
    /// A completed transaction could not be delivered to the endpoint.
    Broadcast,
}

} // verus!
