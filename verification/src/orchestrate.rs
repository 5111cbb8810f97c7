//! The deployment command and its orchestration entry points.
//!
//! `Deploy` carries one run's read-only configuration.  Planning first
//! rejects the one incompatible option pair — a private spending record
//! together with recursive mode, since a single record cannot safely pay
//! for several sequential deployments — and then resolves the ordered unit
//! sequence.  A run over that sequence is driven through the state machine
//! in `machine`.

use vstd::prelude::*;
use vstd::string::StringExecFns;

use crate::errors::DeployError;
use crate::fee::copy_string;
use crate::machine::Action;
use crate::machine::Phase;
use crate::machine::Run;
use crate::resolve::DeploymentUnit;
use crate::resolve::LockGraph;
use crate::resolve::is_deploy_order;
use crate::resolve::is_greedy_order;
use crate::resolve::resolve;
use crate::resolve::units_match;

verus! {

/// The delay between consecutive deployments when none is configured.
pub const DEFAULT_WAIT_SECONDS: u64 = 12;

/// The fee-related inputs of a run.
pub struct FeeOptions {
    /// The ciphertext of a private spending record, when the fee is to be
    /// paid privately.  Its presence forces private mode.
    pub record: Option<String>,
    /// An extra amount offered on top of the minimum cost.
    pub priority_fee: u64,
    /// The network identifier used in the broadcast address.
    pub network: String,
    /// An explicitly supplied private key, if any.
    pub private_key: Option<String>,
}

/// Deploys a program together with its local dependencies.
pub struct Deploy {
    /// Endpoint to retrieve network state from and to broadcast to.
    pub endpoint: String,
    pub fee_options: FeeOptions,
    /// Disables building of the project before deployment.
    pub no_build: bool,
    /// Enables recursive deployment of dependencies.
    pub recursive: bool,
    /// Seconds to wait between consecutive deployments, so that a program
    /// is not placed in an earlier block than a dependency.
    pub wait: u64,
}

impl Deploy {
    /// Whether the project is to be built before orchestration begins.
    pub fn should_build(&self) -> (b: bool)
        ensures
            b == !self.no_build,
    {
        !self.no_build
    }

    /// Plan the run: reject incompatible options, then resolve the ordered
    /// unit sequence.
    ///
    /// A private spending record combined with recursive mode fails at once
    /// with a configuration error, before any unit is touched.  Otherwise
    /// planning succeeds exactly when resolution does: the root program
    /// alone in non-recursive mode, or every locked dependency in
    /// dependency-respecting order with the root last.
    pub fn plan(&self, graph: &LockGraph, root_name: String, root_path: String) -> (r: Result<
        Vec<DeploymentUnit>,
        DeployError,
    >)
        ensures
            match r {
                Ok(units) => {
                    &&& !(self.recursive && self.fee_options.record is Some)
                    &&& units@.len() >= 1
                    &&& units@.last().name@ == root_name@
                    &&& units@.last().path@ == root_path@
                    &&& (!self.recursive ==> units@.len() == 1)
                    &&& (self.recursive ==> exists|ord: Seq<usize>|
                        #[trigger] is_deploy_order(*graph, ord) && is_greedy_order(*graph, ord)
                            && units_match(*graph, ord, units@, root_name@, root_path@))
                },
                Err(e) => {
                    if self.recursive && self.fee_options.record is Some {
                        e == DeployError::Configuration
                    } else {
                        &&& e == DeployError::DependencyResolution
                        &&& self.recursive
                        &&& !exists|ord: Seq<usize>| #[trigger] is_deploy_order(*graph, ord)
                    }
                },
            },
    {
        if self.recursive && self.fee_options.record.is_some() {
            return Err(DeployError::Configuration);
        }
        resolve(graph, root_name, root_path, self.recursive)
    }

    /// Begin the sequenced run over the planned units, paced by the
    /// configured wait.
    pub fn start_run(&self, units: Vec<DeploymentUnit>) -> (r: (Run, Action))
        ensures
            r.0.wf(),
            r.0.units@ == units@,
            r.0.wait == self.wait,
            r.0.broadcast_count == 0,
            units@.len() > 0 ==> r.0.phase == (Phase::Assembling { unit: 0 }) && r.1 == (
            Action::Assemble { index: 0 }),
            units@.len() == 0 ==> r.0.phase == Phase::Finished && r.1 == Action::Finish,
    {
        Run::start(units, self.wait)
    }
}

/// Resolve the signing key: an explicitly configured key wins, otherwise
/// the key from the environment, otherwise no key is usable.
pub fn resolve_private_key(explicit: Option<String>, environment: Option<String>) -> (r: Result<
    String,
    DeployError,
>)
    ensures
        match r {
            Ok(k) => {
                &&& (explicit matches Some(x) ==> k@ == x@)
                &&& (explicit is None ==> (environment matches Some(x) && k@ == x@))
            },
            Err(e) => {
                &&& e == DeployError::KeyResolution
                &&& explicit is None
                &&& environment is None
            },
        },
{
    match explicit {
        Some(k) => Ok(k),
        None => match environment {
            Some(k) => Ok(k),
            None => Err(DeployError::KeyResolution),
        },
    }
}

/// The broadcast address for a transaction: the configured endpoint, the
/// network identifier and the broadcast route, joined by slashes.
pub fn broadcast_url(endpoint: &String, network: &String) -> (r: String)
    ensures
        r@ == endpoint@ + "/"@ + network@ + "/transaction/broadcast"@,
{
    let mut url = copy_string(endpoint);
    url.append("/");
    url.append(network.as_str());
    url.append("/transaction/broadcast");
    url
}

} // verus!
