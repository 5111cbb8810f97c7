use std::str::FromStr;

use leo_deploy::errors::DeployError;
use leo_deploy::vm::authorize_fee;
use leo_deploy::vm::initialize_vm;
use leo_deploy::vm::resolve_signing_key;
use leo_deploy::vm::IdField;

use snarkvm::console::network::MainnetV0;
use snarkvm::console::types::Field;

const VALID_KEY: &str = "APrivateKey1zkp8cC4jgHEBnbtu3xxs1Ndja2EMizcvTRDq5Nikdkukg1p";

#[test]
fn valid_explicit_key_is_resolved() {
    assert!(resolve_signing_key(Some(VALID_KEY.to_string()), None).is_ok());
}

#[test]
fn environment_key_is_used_when_no_explicit_key_is_given() {
    assert!(resolve_signing_key(None, Some(VALID_KEY.to_string())).is_ok());
}

#[test]
fn malformed_key_fails_key_resolution() {
    match resolve_signing_key(Some("APrivateKey1notakey".to_string()), None) {
        Err(e) => assert_eq!(e, DeployError::KeyResolution),
        Ok(_) => panic!("expected a key-resolution error"),
    }
}

#[test]
fn missing_key_fails_key_resolution() {
    match resolve_signing_key(None, None) {
        Err(e) => assert_eq!(e, DeployError::KeyResolution),
        Ok(_) => panic!("expected a key-resolution error"),
    }
}

#[test]
fn public_fee_authorization_succeeds_against_a_fresh_vm() {
    let key = resolve_signing_key(Some(VALID_KEY.to_string()), None).unwrap();
    let vm = initialize_vm().unwrap();
    let id = IdField { inner: Field::<MainnetV0>::from_str("123field").unwrap() };
    let authorization = authorize_fee(&vm, &key, None, 1000, 25, &id);
    assert!(authorization.is_ok());
}
