use leo_deploy::assemble::DeploymentTransaction;
use leo_deploy::assemble::assemble_transaction;
use leo_deploy::errors::DeployError;
use leo_deploy::fee::DeploymentId;
use leo_deploy::fee::PaymentMode;
use leo_deploy::machine::Action;
use leo_deploy::machine::Event;
use leo_deploy::machine::Phase;
use leo_deploy::orchestrate::DEFAULT_WAIT_SECONDS;
use leo_deploy::orchestrate::Deploy;
use leo_deploy::orchestrate::FeeOptions;
use leo_deploy::orchestrate::broadcast_url;
use leo_deploy::orchestrate::resolve_private_key;
use leo_deploy::resolve::LockGraph;
use leo_deploy::resolve::LockNode;

fn node(name: &str, path: &str, deps: Vec<usize>) -> LockNode {
    LockNode { name: name.to_string(), path: path.to_string(), deps }
}

fn deploy(record: Option<&str>, recursive: bool, wait: u64) -> Deploy {
    Deploy {
        endpoint: "http://api.explorer.aleo.org/v1".to_string(),
        fee_options: FeeOptions {
            record: record.map(|r| r.to_string()),
            priority_fee: 0,
            network: "testnet3".to_string(),
            private_key: None,
        },
        no_build: false,
        recursive,
        wait,
    }
}

fn chain_graph() -> LockGraph {
    LockGraph {
        nodes: vec![
            node("a.aleo", "/a/build", vec![]),
            node("b.aleo", "/b/build", vec![0]),
            node("c.aleo", "/c/build", vec![1]),
        ],
    }
}

#[test]
fn record_with_recursive_fails_before_any_unit() {
    let cmd = deploy(Some("record1ciphertext"), true, 12);
    let err = cmd.plan(&chain_graph(), "p.aleo".to_string(), "/p/build".to_string()).unwrap_err();
    assert_eq!(err, DeployError::Configuration);
}

#[test]
fn record_without_recursive_is_accepted() {
    let cmd = deploy(Some("record1ciphertext"), false, 12);
    let units = cmd.plan(&chain_graph(), "p.aleo".to_string(), "/p/build".to_string()).unwrap();
    assert_eq!(units.len(), 1);
    assert_eq!(units[0].name, "p.aleo");
}

#[test]
fn recursive_without_record_plans_the_full_order() {
    let cmd = deploy(None, true, 12);
    let units = cmd.plan(&chain_graph(), "p.aleo".to_string(), "/p/build".to_string()).unwrap();
    let names: Vec<&str> = units.iter().map(|u| u.name.as_str()).collect();
    assert_eq!(names, vec!["a.aleo", "b.aleo", "c.aleo", "p.aleo"]);
}

#[test]
fn explicit_key_wins_over_environment() {
    let k = resolve_private_key(Some("explicit".to_string()), Some("env".to_string())).unwrap();
    assert_eq!(k, "explicit");
}

#[test]
fn environment_key_is_the_fallback() {
    let k = resolve_private_key(None, Some("env".to_string())).unwrap();
    assert_eq!(k, "env");
}

#[test]
fn missing_key_is_an_error() {
    let err = resolve_private_key(None, None).unwrap_err();
    assert_eq!(err, DeployError::KeyResolution);
}

#[test]
fn broadcast_url_joins_endpoint_network_and_route() {
    let url = broadcast_url(
        &"http://api.explorer.aleo.org/v1".to_string(),
        &"testnet3".to_string(),
    );
    assert_eq!(url, "http://api.explorer.aleo.org/v1/testnet3/transaction/broadcast");
}

#[test]
fn no_build_flag_skips_the_build() {
    assert!(deploy(None, false, 12).should_build());
    let mut cmd = deploy(None, false, 12);
    cmd.no_build = true;
    assert!(!cmd.should_build());
}

#[test]
fn default_wait_is_twelve_seconds() {
    assert_eq!(DEFAULT_WAIT_SECONDS, 12);
}

#[test]
fn full_run_assembles_and_broadcasts_in_order() {
    // Plan a three-dependency chain, then drive the machine to completion,
    // assembling one transaction per unit with a unit-specific identifier.
    let cmd = deploy(None, true, 1);
    let units = cmd.plan(&chain_graph(), "p.aleo".to_string(), "/p/build".to_string()).unwrap();
    let n = units.len();
    let signer = "APrivateKey1zkp".to_string();
    let (mut run, mut action) = cmd.start_run(units);
    assert_eq!(run.phase, Phase::Assembling { unit: 0 });
    let mut assembled: Vec<Option<DeploymentTransaction>> = (0..n).map(|_| None).collect();
    let mut broadcast_order: Vec<usize> = Vec::new();
    let mut waits = 0;
    loop {
        match action {
            Action::Assemble { index } => {
                let id = DeploymentId::new(vec![index as u8; 4]);
                let tx =
                    assemble_transaction(&signer, &id, 100, 0, &PaymentMode::Public).unwrap();
                assert!(tx.deployment_id.matches(&id));
                assembled[index] = Some(tx);
                action = run.step(Event::AssemblyDone);
            }
            Action::Broadcast { index } => {
                assert!(assembled[index].is_some());
                broadcast_order.push(index);
                action = run.step(Event::BroadcastDone);
            }
            Action::Wait { seconds } => {
                assert_eq!(seconds, 1);
                waits += 1;
                action = run.step(Event::WaitElapsed);
            }
            Action::Finish => break,
            other => panic!("unexpected action {:?}", other),
        }
    }
    assert_eq!(run.phase, Phase::Finished);
    assert_eq!(broadcast_order, vec![0, 1, 2, 3]);
    assert_eq!(waits, n - 1);
    // each assembled transaction is bound to its own unit's identifier
    for (i, tx) in assembled.iter().enumerate() {
        let tx = tx.as_ref().unwrap();
        assert!(tx.deployment_id.matches(&DeploymentId::new(vec![i as u8; 4])));
    }
}
