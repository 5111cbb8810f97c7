use leo_deploy::errors::DeployError;
use leo_deploy::machine::Action;
use leo_deploy::machine::Event;
use leo_deploy::machine::Phase;
use leo_deploy::machine::Run;
use leo_deploy::resolve::DeploymentUnit;

fn units(names: &[&str]) -> Vec<DeploymentUnit> {
    names
        .iter()
        .map(|n| DeploymentUnit { name: n.to_string(), path: format!("/{}/build", n) })
        .collect()
}

#[test]
fn empty_sequence_finishes_at_once() {
    let (run, action) = Run::start(units(&[]), 12);
    assert_eq!(action, Action::Finish);
    assert_eq!(run.phase, Phase::Finished);
    assert_eq!(run.broadcast_count, 0);
}

#[test]
fn four_units_three_pauses_no_trailing_wait() {
    // Lock graph a -> b -> c with root p resolves to [a, b, c, p]; with a
    // one-second wait the run broadcasts four transactions with exactly
    // three pauses between them and none after the last.
    let (mut run, mut action) = Run::start(units(&["a.aleo", "b.aleo", "c.aleo", "p.aleo"]), 1);
    let mut broadcasts = 0;
    let mut waits = 0;
    loop {
        match action {
            Action::Assemble { index } => {
                assert_eq!(run.phase, Phase::Assembling { unit: index });
                action = run.step(Event::AssemblyDone);
            }
            Action::Broadcast { index } => {
                assert_eq!(run.phase, Phase::Broadcasting { unit: index });
                broadcasts += 1;
                action = run.step(Event::BroadcastDone);
            }
            Action::Wait { seconds } => {
                assert_eq!(seconds, 1);
                waits += 1;
                action = run.step(Event::WaitElapsed);
            }
            Action::Finish => break,
            other => panic!("unexpected action {:?}", other),
        }
    }
    assert_eq!(broadcasts, 4);
    assert_eq!(waits, 3);
    assert_eq!(run.phase, Phase::Finished);
    assert_eq!(run.broadcast_count, 4);
}

#[test]
fn wait_comes_between_units_not_after_last() {
    let (mut run, action) = Run::start(units(&["a.aleo", "b.aleo"]), 12);
    assert_eq!(action, Action::Assemble { index: 0 });
    assert_eq!(run.step(Event::AssemblyDone), Action::Broadcast { index: 0 });
    // first unit done, one more remains: the configured wait runs
    assert_eq!(run.step(Event::BroadcastDone), Action::Wait { seconds: 12 });
    assert_eq!(run.phase, Phase::Pausing { unit: 0 });
    assert_eq!(run.step(Event::WaitElapsed), Action::Assemble { index: 1 });
    assert_eq!(run.step(Event::AssemblyDone), Action::Broadcast { index: 1 });
    // last unit done: no trailing wait
    assert_eq!(run.step(Event::BroadcastDone), Action::Finish);
    assert_eq!(run.phase, Phase::Finished);
}

#[test]
fn assembly_failure_aborts_and_preserves_prior_broadcasts() {
    let (mut run, _) = Run::start(units(&["a.aleo", "b.aleo", "c.aleo"]), 0);
    // unit 0 succeeds fully
    run.step(Event::AssemblyDone);
    run.step(Event::BroadcastDone);
    run.step(Event::WaitElapsed);
    // unit 1 fails assembly
    let action = run.step(Event::AssemblyFailed { error: DeployError::Package });
    assert_eq!(action, Action::Abort { index: 1, error: DeployError::Package });
    assert_eq!(run.phase, Phase::Failed { unit: 1, error: DeployError::Package });
    // unit 0 stays broadcast; unit 2 was never attempted
    assert_eq!(run.broadcast_count, 1);
    // and nothing further ever happens
    assert_eq!(run.step(Event::AssemblyDone), Action::Stay);
    assert_eq!(run.step(Event::BroadcastDone), Action::Stay);
    assert_eq!(run.phase, Phase::Failed { unit: 1, error: DeployError::Package });
    assert_eq!(run.broadcast_count, 1);
}

#[test]
fn broadcast_failure_aborts_with_broadcast_error() {
    let (mut run, _) = Run::start(units(&["a.aleo", "b.aleo"]), 3);
    run.step(Event::AssemblyDone);
    let action = run.step(Event::BroadcastFailed);
    assert_eq!(action, Action::Abort { index: 0, error: DeployError::Broadcast });
    assert_eq!(run.phase, Phase::Failed { unit: 0, error: DeployError::Broadcast });
    assert_eq!(run.broadcast_count, 0);
}

#[test]
fn mismatched_event_changes_nothing() {
    let (mut run, _) = Run::start(units(&["a.aleo"]), 12);
    assert_eq!(run.step(Event::BroadcastDone), Action::Stay);
    assert_eq!(run.step(Event::WaitElapsed), Action::Stay);
    assert_eq!(run.phase, Phase::Assembling { unit: 0 });
    assert_eq!(run.broadcast_count, 0);
    assert!(run.is_wf());
}
