//! Fee specification and fee authorization.
//!
//! A deployment's fee is paid through exactly one of two protocols: spending
//! a private record, or drawing from the signer's public balance.  The
//! payment mode is a sum type, so no third state exists.  An authorization
//! binds the payer, the costs and the deployment identifier together; it is
//! valid only for the deployment it was built for.

use vstd::prelude::*;

use crate::errors::DeployError;

verus! {

/// A content-derived deployment identifier, carried as opaque bytes.
#[derive(Debug)]
pub struct DeploymentId {
    pub bytes: Vec<u8>,
}

impl View for DeploymentId {
    type V = Seq<u8>;

    open spec fn view(&self) -> Seq<u8> {
        self.bytes@
    }
}

impl DeploymentId {
    pub fn new(bytes: Vec<u8>) -> (r: DeploymentId)
        ensures
            r@ == bytes@,
    {
        DeploymentId { bytes }
    }

    /// Whether two identifiers name the same deployment.
    pub fn matches(&self, other: &DeploymentId) -> (r: bool)
        ensures
            r == (self@ == other@),
    {
        if self.bytes.len() != other.bytes.len() {
            return false;
        }
        let n: usize = self.bytes.len();
        let mut i: usize = 0;
        while i < n
            invariant
                n == self.bytes@.len(),
                n == other.bytes@.len(),
                i <= n,
                forall|j: int| 0 <= j < i ==> self.bytes@[j] == other.bytes@[j],
            decreases n - i,
        {
            if self.bytes[i] != other.bytes[i] {
                return false;
            }
            i += 1;
        }
        assert(self@ =~= other@);
        true
    }

    /// An identical copy of the identifier.
    pub fn duplicate(&self) -> (r: DeploymentId)
        ensures
            r@ == self@,
    {
        let n: usize = self.bytes.len();
        let mut bytes: Vec<u8> = Vec::new();
        let mut i: usize = 0;
        while i < n
            invariant
                n == self.bytes@.len(),
                i <= n,
                bytes@.len() == i,
                forall|j: int| 0 <= j < i ==> bytes@[j] == self.bytes@[j],
            decreases n - i,
        {
            bytes.push(self.bytes[i]);
            i += 1;
        }
        assert(bytes@ =~= self.bytes@);
        DeploymentId { bytes }
    }
}

/// The payment source for a deployment fee.  Exactly one mode is active per
/// deployment.
#[derive(Clone, Copy, Debug, PartialEq, Eq, Structural)]
pub enum PaymentMode {
    /// Spend a private record whose spendable amount is known.
    Private { record_amount: u64 },
    /// Draw from the signer's public balance; whether the balance suffices
    /// is decided by the ledger, not here.
    Public,
}

/// The inputs from which one deployment's fee is authorized.
#[derive(Clone, Copy, Debug, PartialEq, Eq, Structural)]
pub struct FeeSpec {
    /// The minimum cost the ledger demands for this deployment.
    pub minimum_cost: u64,
    /// An extra amount offered on top of the minimum.
    pub priority_fee: u64,
    /// The payment source.
    pub mode: PaymentMode,
}

/// Which protocol produced a fee authorization.
#[derive(Clone, Copy, Debug, PartialEq, Eq, Structural)]
pub enum FeeProtocol {
    RecordSpend,
    PublicBalance,
}

/// A signed statement permitting `base_cost + priority_fee` to be paid by
/// `payer` from one specific source, for one specific deployment.
#[derive(Debug)]
pub struct FeeAuthorization {
    pub payer: String,
    pub base_cost: u64,
    pub priority_fee: u64,
    pub deployment_id: DeploymentId,
    pub protocol: FeeProtocol,
    /// Signature randomness: authorizations over the same inputs differ here.
    pub nonce: u64,
}

/// Relies on rand::random: a fresh value from the thread-local generator.
/// Nothing is promised of the result; it randomizes an authorization's
/// signature material.
#[verifier::external_body]
pub(crate) fn fresh_nonce() -> u64 {
    rand::random::<u64>()
}

/// Authorize the fee for one deployment.
///
/// Exactly one protocol runs, decided by `spec.mode`.  In private mode the
/// record must cover the full cost; otherwise the authorization fails and
/// nothing is signed.  In public mode the authorization always succeeds
/// here, since only the ledger knows the payer's balance.  A returned
/// authorization carries exactly the deployment identifier it was asked
/// for, so it cannot be reused for another unit.
pub fn authorize(payer: &String, spec: &FeeSpec, deployment_id: &DeploymentId) -> (r: Result<
    FeeAuthorization,
    DeployError,
>)
    ensures
        match r {
            Ok(a) => {
                &&& a.payer@ == payer@
                &&& a.base_cost == spec.minimum_cost
                &&& a.priority_fee == spec.priority_fee
                &&& a.deployment_id@ == deployment_id@
                &&& match spec.mode {
                    PaymentMode::Private { record_amount } => a.protocol
                        == FeeProtocol::RecordSpend && record_amount >= spec.minimum_cost
                        + spec.priority_fee,
                    PaymentMode::Public => a.protocol == FeeProtocol::PublicBalance,
                }
            },
            Err(e) => {
                &&& e == DeployError::Fee
                &&& match spec.mode {
                    PaymentMode::Private { record_amount } => record_amount < spec.minimum_cost
                        + spec.priority_fee,
                    PaymentMode::Public => false,
                }
            },
        },
{
    let protocol: FeeProtocol = match spec.mode {
        PaymentMode::Private { record_amount } => {
            if record_amount < spec.minimum_cost {
                return Err(DeployError::Fee);
            }
            if record_amount - spec.minimum_cost < spec.priority_fee {
                return Err(DeployError::Fee);
            }
            FeeProtocol::RecordSpend
        },
        PaymentMode::Public => FeeProtocol::PublicBalance,
    };
    let payer_copy = copy_string(payer);
    Ok(
        FeeAuthorization {
            payer: payer_copy,
            base_cost: spec.minimum_cost,
            priority_fee: spec.priority_fee,
            deployment_id: deployment_id.duplicate(),
            protocol,
            nonce: fresh_nonce(),
        },
    )
}

/// A fresh string with the same characters.
pub fn copy_string(s: &String) -> (r: String)
    ensures
        r@ == s@,
{
    <String as vstd::string::StringExecFns>::from_str(s.as_str())
}

} // verus!
