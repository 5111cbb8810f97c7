//! Transaction assembly.
//!
//! A deployment transaction binds three things to one deployment identifier:
//! the deployment itself, a fee authorization, and an ownership proof.  The
//! assembler receives what the external package and cost subsystems derived
//! from the artifact — the identifier and the minimum cost — and produces a
//! transaction whose three parts are provably bound to the same identifier.

use vstd::prelude::*;

use crate::errors::DeployError;
use crate::fee::DeploymentId;
use crate::fee::FeeAuthorization;
use crate::fee::FeeSpec;
use crate::fee::PaymentMode;
use crate::fee::authorize;
use crate::fee::copy_string;
use crate::fee::fresh_nonce;

verus! {

/// A signature binding the deployer's key to one deployment identifier,
/// proving the right to publish that deployment.
#[derive(Debug)]
pub struct OwnershipProof {
    pub signer: String,
    pub deployment_id: DeploymentId,
    /// Signature randomness.
    pub nonce: u64,
}

/// A ready-to-broadcast deployment transaction plan.  Immutable once assembled.
#[derive(Debug)]
pub struct DeploymentTransaction {
    pub deployment_id: DeploymentId,
    pub owner: OwnershipProof,
    pub fee: FeeAuthorization,
}

impl DeploymentTransaction {
    /// The ownership proof and the fee authorization both name exactly the
    /// deployment this transaction carries.
    pub open spec fn well_bound(self) -> bool {
        &&& self.owner.deployment_id@ == self.deployment_id@
        &&& self.fee.deployment_id@ == self.deployment_id@
    }
}

/// Assemble the transaction for one deployment.
///
/// `deployment_id` and `minimum_cost` come from the external package and
/// cost subsystems; `payment` is the payment source resolved from the
/// configured fee options.  On success the transaction's deployment, fee
/// authorization and ownership proof are all bound to `deployment_id`, and
/// the fee carries exactly the requested costs.  Assembly fails only when
/// the fee cannot be authorized; no partial transaction is ever returned.
pub fn assemble_transaction(
    signer: &String,
    deployment_id: &DeploymentId,
    minimum_cost: u64,
    priority_fee: u64,
    payment: &PaymentMode,
) -> (r: Result<DeploymentTransaction, DeployError>)
    ensures
        match r {
            Ok(t) => {
                &&& t.well_bound()
                &&& t.deployment_id@ == deployment_id@
                &&& t.owner.signer@ == signer@
                &&& t.fee.payer@ == signer@
                &&& t.fee.base_cost == minimum_cost
                &&& t.fee.priority_fee == priority_fee
                &&& match *payment {
                    PaymentMode::Private { record_amount } => record_amount >= minimum_cost
                        + priority_fee,
                    PaymentMode::Public => true,
                }
            },
            Err(e) => {
                &&& e == DeployError::Fee
                &&& match *payment {
                    PaymentMode::Private { record_amount } => record_amount < minimum_cost
                        + priority_fee,
                    PaymentMode::Public => false,
                }
            },
        },
{
    let fee_spec = FeeSpec { minimum_cost, priority_fee, mode: *payment };
    let fee = match authorize(signer, &fee_spec, deployment_id) {
        Ok(a) => a,
        Err(e) => {
            return Err(e);
        },
    };
    let owner = OwnershipProof {
        signer: copy_string(signer),
        deployment_id: deployment_id.duplicate(),
        nonce: fresh_nonce(),
    };
    Ok(DeploymentTransaction { deployment_id: deployment_id.duplicate(), owner, fee })
}

} // verus!
