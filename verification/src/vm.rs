//! The boundary to the proving stack.
//!
//! The cryptographic virtual machine — package loading, deployment
//! derivation, cost computation, fee authorization, ownership signatures and
//! transaction construction — is an external subsystem.  Its values are
//! carried through this module in opaque holder structs, the calls the
//! orchestrator makes are wrapped as trusted items, and the verified
//! per-unit assembly steps are built on top of them: key resolution, the
//! two-branch fee authorization, deployment derivation and the final
//! binding of owner, deployment and fee into one transaction.  Executing a
//! fee authorization against a live endpoint and broadcasting are network
//! round trips and stay with the caller, which reaches the carried values
//! through the holders' fields.

use std::str::FromStr;
use std::sync::Arc;

use aleo_std::StorageMode;
use snarkvm::circuit::AleoV0;
use snarkvm::console::account::PrivateKey;
use snarkvm::console::network::ConsensusVersion;
use snarkvm::console::network::MainnetV0;
use snarkvm::console::program::Plaintext;
use snarkvm::console::program::ProgramOwner;
use snarkvm::console::program::Record;
use snarkvm::console::types::Field;
use snarkvm::ledger::block::Deployment;
use snarkvm::ledger::block::Fee;
use snarkvm::ledger::block::Transaction;
use snarkvm::ledger::store::ConsensusStore;
use snarkvm::ledger::store::helpers::memory::ConsensusMemory;
use snarkvm::package::Package;
use snarkvm::synthesizer::VM;
use snarkvm::synthesizer::process::Authorization;
use snarkvm::synthesizer::process::Process;
use snarkvm::synthesizer::process::Stack;
use snarkvm::synthesizer::process::deployment_cost;
use snarkvm::utilities::ToBytes;
use vstd::prelude::*;

use crate::errors::DeployError;
use crate::fee::DeploymentId;
use crate::orchestrate::resolve_private_key;

verus! {

/// A parsed private key of the target network, carried opaquely.
#[verifier::external_body]
pub struct SigningKey {
    pub inner: PrivateKey<MainnetV0>,
}

/// A deployment identifier in the proving stack's field form.
#[verifier::external_body]
pub struct IdField {
    pub inner: Field<MainnetV0>,
}

/// A decrypted spending record, usable as a private fee source.
#[verifier::external_body]
pub struct SpendingRecord {
    pub inner: Record<MainnetV0, Plaintext<MainnetV0>>,
}

/// A signed fee authorization awaiting execution.
#[verifier::external_body]
pub struct VmAuthorization {
    pub inner: Authorization<MainnetV0>,
}

/// A derived deployment of one package.
#[verifier::external_body]
pub struct VmDeployment {
    pub inner: Deployment<MainnetV0>,
}

/// An executed fee, ready to be bound into a transaction.
#[verifier::external_body]
pub struct ExecutedFee {
    pub inner: Fee<MainnetV0>,
}

/// An ownership signature over a deployment identifier.
#[verifier::external_body]
pub struct OwnerSignature {
    pub inner: ProgramOwner<MainnetV0>,
}

/// A complete deployment transaction of the ledger.
#[verifier::external_body]
pub struct LedgerTransaction {
    pub inner: Transaction<MainnetV0>,
}

/// An opened package: a program with its build artifacts.
#[verifier::external_body]
pub struct VmPackage {
    pub inner: Package<MainnetV0>,
}

/// A loaded synthesizer process.
#[verifier::external_body]
pub struct VmProcess {
    pub inner: Process<MainnetV0>,
}

/// The synthesized call stack of one program within a process.
#[verifier::external_body]
pub struct StackHandle {
    pub inner: Arc<Stack<MainnetV0>>,
}

/// An in-memory consensus store.
#[verifier::external_body]
pub struct StoreHandle {
    pub inner: ConsensusStore<MainnetV0, ConsensusMemory<MainnetV0>>,
}

/// An initialized virtual machine over an in-memory store.
#[verifier::external_body]
pub struct VmHandle {
    pub inner: VM<MainnetV0, ConsensusMemory<MainnetV0>>,
}

/// Whether a string is the well-formed textual form of a private key.
/// What PrivateKey::from_str accepts depends on the characters alone, so
/// its success condition carries this name.
pub uninterp spec fn key_parses(s: Seq<char>) -> bool;

/// Relies on PrivateKey::from_str: parses the textual form of a private
/// key; it succeeds exactly on the strings that parse as a key, and any
/// parse failure is surfaced as a key-resolution error.
#[verifier::external_body]
fn private_key_from_str(s: &str) -> (r: Result<SigningKey, DeployError>)
    ensures
        r is Ok <==> key_parses(s@),
        r matches Err(e) ==> e == DeployError::KeyResolution,
{
    match PrivateKey::from_str(s) {
        Ok(inner) => Ok(SigningKey { inner }),
        Err(_) => Err(DeployError::KeyResolution),
    }
}

/// Relies on ConsensusStore::open: opens an in-memory consensus store.
#[verifier::external_body]
fn open_consensus_store() -> (r: Result<StoreHandle, DeployError>)
    ensures
        r matches Err(e) ==> e == DeployError::Assembly,
{
    match ConsensusStore::open(StorageMode::Production) {
        Ok(inner) => Ok(StoreHandle { inner }),
        Err(_) => Err(DeployError::Assembly),
    }
}

/// Relies on VM::from: initializes the virtual machine over a store.
#[verifier::external_body]
fn vm_from_store(store: StoreHandle) -> (r: Result<VmHandle, DeployError>)
    ensures
        r matches Err(e) ==> e == DeployError::Assembly,
{
    match VM::from(store.inner) {
        Ok(inner) => Ok(VmHandle { inner }),
        Err(_) => Err(DeployError::Assembly),
    }
}

/// Relies on Package::get_process: loads the synthesizer process and adds
/// the package's program and imports to it.
#[verifier::external_body]
fn package_process(package: &VmPackage) -> (r: Result<VmProcess, DeployError>)
    ensures
        r matches Err(e) ==> e == DeployError::Package,
{
    match package.inner.get_process() {
        Ok(inner) => Ok(VmProcess { inner }),
        Err(_) => Err(DeployError::Package),
    }
}

/// Relies on Process::get_stack: the call stack of the package's main
/// program within the process.
#[verifier::external_body]
fn get_program_stack(process: &VmProcess, package: &VmPackage) -> (r: Result<
    StackHandle,
    DeployError,
>)
    ensures
        r matches Err(e) ==> e == DeployError::Package,
{
    match process.inner.get_stack(package.inner.program().id()) {
        Ok(inner) => Ok(StackHandle { inner }),
        Err(_) => Err(DeployError::Package),
    }
}

/// Relies on Stack::deploy: synthesizes the deployment — its verifying
/// keys and certificates — for the stack's program, randomized by the
/// thread-local generator.
#[verifier::external_body]
fn stack_deploy(stack: &StackHandle) -> (r: Result<VmDeployment, DeployError>)
    ensures
        r matches Err(e) ==> e == DeployError::Package,
{
    let rng = &mut rand::rng();
    match stack.inner.deploy::<AleoV0, _>(rng) {
        Ok(inner) => Ok(VmDeployment { inner }),
        Err(_) => Err(DeployError::Package),
    }
}

/// Relies on Deployment::to_deployment_id: the content-derived identifier
/// of a deployment.
#[verifier::external_body]
fn deployment_id_of(deployment: &VmDeployment) -> (r: Result<IdField, DeployError>)
    ensures
        r matches Err(e) ==> e == DeployError::Package,
{
    match deployment.inner.to_deployment_id() {
        Ok(inner) => Ok(IdField { inner }),
        Err(_) => Err(DeployError::Package),
    }
}

/// Relies on ToBytes::to_bytes_le for Field: the little-endian byte form
/// of a field element, which is always exactly 32 bytes wide.
#[verifier::external_body]
fn field_to_bytes(field: &IdField) -> (r: Result<Vec<u8>, DeployError>)
    ensures
        r matches Ok(b) ==> b@.len() == 32,
        r matches Err(e) ==> e == DeployError::Package,
{
    field.inner.to_bytes_le().map_err(|_| DeployError::Package)
}

/// Relies on deployment_cost at the latest consensus version: the minimum
/// cost in microcredits that the ledger demands for a deployment.
#[verifier::external_body]
fn minimum_deployment_cost(process: &VmProcess, deployment: &VmDeployment) -> (r: Result<
    u64,
    DeployError,
>)
    ensures
        r matches Err(e) ==> e == DeployError::Fee,
{
    deployment_cost(&process.inner, &deployment.inner, ConsensusVersion::latest())
        .map(|(cost, _)| cost)
        .map_err(|_| DeployError::Fee)
}

/// Relies on VM::authorize_fee_private: signs a fee authorization spending
/// the given record, bound to the given deployment identifier, randomized
/// by the thread-local generator.
#[verifier::external_body]
fn vm_authorize_fee_private(
    vm: &VmHandle,
    private_key: &SigningKey,
    credits: SpendingRecord,
    base_fee: u64,
    priority_fee: u64,
    deployment_id: &IdField,
) -> (r: Result<VmAuthorization, DeployError>)
    ensures
        r matches Err(e) ==> e == DeployError::Fee,
{
    let rng = &mut rand::rng();
    match vm.inner.authorize_fee_private(
        &private_key.inner,
        credits.inner,
        base_fee,
        priority_fee,
        deployment_id.inner,
        rng,
    ) {
        Ok(inner) => Ok(VmAuthorization { inner }),
        Err(_) => Err(DeployError::Fee),
    }
}

/// Relies on VM::authorize_fee_public: signs a fee authorization drawing
/// from the payer's public balance, bound to the given deployment
/// identifier, randomized by the thread-local generator.
#[verifier::external_body]
fn vm_authorize_fee_public(
    vm: &VmHandle,
    private_key: &SigningKey,
    base_fee: u64,
    priority_fee: u64,
    deployment_id: &IdField,
) -> (r: Result<VmAuthorization, DeployError>)
    ensures
        r matches Err(e) ==> e == DeployError::Fee,
{
    let rng = &mut rand::rng();
    match vm.inner.authorize_fee_public(
        &private_key.inner,
        base_fee,
        priority_fee,
        deployment_id.inner,
        rng,
    ) {
        Ok(inner) => Ok(VmAuthorization { inner }),
        Err(_) => Err(DeployError::Fee),
    }
}

/// Relies on ProgramOwner::new: signs the deployment identifier with the
/// deployer's key, randomized by the thread-local generator.
#[verifier::external_body]
fn program_owner_new(private_key: &SigningKey, deployment_id: &IdField) -> (r: Result<
    OwnerSignature,
    DeployError,
>)
    ensures
        r matches Err(e) ==> e == DeployError::Assembly,
{
    let rng = &mut rand::rng();
    match ProgramOwner::new(&private_key.inner, deployment_id.inner, rng) {
        Ok(inner) => Ok(OwnerSignature { inner }),
        Err(_) => Err(DeployError::Assembly),
    }
}

/// Relies on Transaction::from_deployment: binds owner, deployment and fee
/// into one deployment transaction.
#[verifier::external_body]
fn transaction_from_deployment(
    owner: OwnerSignature,
    deployment: VmDeployment,
    fee: ExecutedFee,
) -> (r: Result<LedgerTransaction, DeployError>)
    ensures
        r matches Err(e) ==> e == DeployError::Assembly,
{
    match Transaction::from_deployment(owner.inner, deployment.inner, fee.inner) {
        Ok(inner) => Ok(LedgerTransaction { inner }),
        Err(_) => Err(DeployError::Assembly),
    }
}

/// Resolve and parse the signing key: an explicitly configured key wins,
/// otherwise the key from the environment; with neither, or with a key
/// that does not parse, key resolution fails.
pub fn resolve_signing_key(explicit: Option<String>, environment: Option<String>) -> (r: Result<
    SigningKey,
    DeployError,
>)
    ensures
        r matches Err(e) ==> e == DeployError::KeyResolution,
        explicit is None && environment is None ==> r is Err,
        explicit matches Some(x) ==> (r is Ok <==> key_parses(x@)),
        explicit is None ==> (environment matches Some(x) ==> (r is Ok <==> key_parses(x@))),
{
    let chosen = match resolve_private_key(explicit, environment) {
        Ok(k) => k,
        Err(e) => {
            return Err(e);
        },
    };
    private_key_from_str(chosen.as_str())
}

/// Initialize the virtual machine over a fresh in-memory consensus store,
/// as one run of the orchestrator does.
pub fn initialize_vm() -> (r: Result<VmHandle, DeployError>)
    ensures
        r matches Err(e) ==> e == DeployError::Assembly,
{
    let store = match open_consensus_store() {
        Ok(s) => s,
        Err(e) => {
            return Err(e);
        },
    };
    vm_from_store(store)
}

/// Derive one unit's deployment: load the package's process, synthesize
/// the deployment, and return it with its identifier — both in field form
/// and as the byte identifier the orchestration model tracks — and the
/// minimum cost the ledger demands for it.  The byte identifier is always
/// exactly 32 bytes wide.
pub fn derive_deployment(package: &VmPackage) -> (r: Result<
    (VmDeployment, IdField, DeploymentId, u64),
    DeployError,
>)
    ensures
        r matches Ok(t) ==> t.2@.len() == 32,
        r matches Err(e) ==> e == DeployError::Package || e == DeployError::Fee,
{
    let process = match package_process(package) {
        Ok(p) => p,
        Err(e) => {
            return Err(e);
        },
    };
    let stack = match get_program_stack(&process, package) {
        Ok(s) => s,
        Err(e) => {
            return Err(e);
        },
    };
    let deployment = match stack_deploy(&stack) {
        Ok(d) => d,
        Err(e) => {
            return Err(e);
        },
    };
    let id = match deployment_id_of(&deployment) {
        Ok(i) => i,
        Err(e) => {
            return Err(e);
        },
    };
    let bytes = match field_to_bytes(&id) {
        Ok(b) => b,
        Err(e) => {
            return Err(e);
        },
    };
    let cost = match minimum_deployment_cost(&process, &deployment) {
        Ok(c) => c,
        Err(e) => {
            return Err(e);
        },
    };
    Ok((deployment, id, DeploymentId::new(bytes), cost))
}

/// Authorize one unit's fee: exactly one of the two protocols runs,
/// decided by the presence of a spending record — spend the record
/// privately, or draw from the payer's public balance.  Either way the
/// authorization is bound to the given deployment identifier.  Any failure
/// is a fee error and nothing is signed.
pub fn authorize_fee(
    vm: &VmHandle,
    private_key: &SigningKey,
    fee_record: Option<SpendingRecord>,
    minimum_cost: u64,
    priority_fee: u64,
    deployment_id: &IdField,
) -> (r: Result<VmAuthorization, DeployError>)
    ensures
        r matches Err(e) ==> e == DeployError::Fee,
{
    match fee_record {
        Option::Some(record) => vm_authorize_fee_private(
            vm,
            private_key,
            record,
            minimum_cost,
            priority_fee,
            deployment_id,
        ),
        Option::None => vm_authorize_fee_public(
            vm,
            private_key,
            minimum_cost,
            priority_fee,
            deployment_id,
        ),
    }
}

/// Bind one unit's transaction: sign the ownership proof over the
/// deployment identifier and join owner, deployment and executed fee into
/// the final transaction.
pub fn bind_transaction(
    private_key: &SigningKey,
    deployment: VmDeployment,
    deployment_id: &IdField,
    fee: ExecutedFee,
) -> (r: Result<LedgerTransaction, DeployError>)
    ensures
        r matches Err(e) ==> e == DeployError::Assembly,
{
    let owner = match program_owner_new(private_key, deployment_id) {
        Ok(o) => o,
        Err(e) => {
            return Err(e);
        },
    };
    transaction_from_deployment(owner, deployment, fee)
}

} // verus!
