use leo_deploy::errors::DeployError;
use leo_deploy::resolve::LockGraph;
use leo_deploy::resolve::LockNode;
use leo_deploy::resolve::resolve;
use leo_deploy::resolve::topo_order;

fn node(name: &str, path: &str, deps: Vec<usize>) -> LockNode {
    LockNode { name: name.to_string(), path: path.to_string(), deps }
}

#[test]
fn linear_chain_resolves_dependencies_first() {
    // C depends on B depends on A; the root program P depends on C.
    let graph = LockGraph {
        nodes: vec![
            node("a.aleo", "/dep/a/build", vec![]),
            node("b.aleo", "/dep/b/build", vec![0]),
            node("c.aleo", "/dep/c/build", vec![1]),
        ],
    };
    let units = resolve(&graph, "p.aleo".to_string(), "/p/build".to_string(), true).unwrap();
    let names: Vec<&str> = units.iter().map(|u| u.name.as_str()).collect();
    assert_eq!(names, vec!["a.aleo", "b.aleo", "c.aleo", "p.aleo"]);
    assert_eq!(units[0].path, "/dep/a/build");
    assert_eq!(units[3].path, "/p/build");
}

#[test]
fn non_recursive_ignores_lock_contents() {
    let graph = LockGraph {
        nodes: vec![node("a.aleo", "/dep/a/build", vec![]), node("b.aleo", "/dep/b/build", vec![0])],
    };
    let units = resolve(&graph, "p.aleo".to_string(), "/p/build".to_string(), false).unwrap();
    assert_eq!(units.len(), 1);
    assert_eq!(units[0].name, "p.aleo");
    assert_eq!(units[0].path, "/p/build");
}

#[test]
fn root_is_always_last() {
    let graph = LockGraph {
        nodes: vec![
            node("x.aleo", "/x", vec![]),
            node("y.aleo", "/y", vec![]),
        ],
    };
    let units = resolve(&graph, "root.aleo".to_string(), "/root".to_string(), true).unwrap();
    assert_eq!(units.last().unwrap().name, "root.aleo");
    assert_eq!(units.len(), 3);
}

#[test]
fn diamond_respects_every_edge() {
    // d depends on b and c; b and c both depend on a.
    let graph = LockGraph {
        nodes: vec![
            node("a.aleo", "/a", vec![]),
            node("b.aleo", "/b", vec![0]),
            node("c.aleo", "/c", vec![0]),
            node("d.aleo", "/d", vec![1, 2]),
        ],
    };
    let ord = topo_order(&graph).unwrap();
    assert_eq!(ord, vec![0, 1, 2, 3]);
    // every dependency appears strictly before its dependent
    for (pos, &i) in ord.iter().enumerate() {
        for &d in &graph.nodes[i].deps {
            let dep_pos = ord.iter().position(|&x| x == d).unwrap();
            assert!(dep_pos < pos);
        }
    }
}

#[test]
fn resolution_is_deterministic_across_runs() {
    let graph = LockGraph {
        nodes: vec![
            node("a.aleo", "/a", vec![2]),
            node("b.aleo", "/b", vec![]),
            node("c.aleo", "/c", vec![1]),
        ],
    };
    let first = topo_order(&graph).unwrap();
    let second = topo_order(&graph).unwrap();
    assert_eq!(first, second);
    assert_eq!(first, vec![1, 2, 0]);
}

#[test]
fn cycle_is_rejected() {
    let graph = LockGraph {
        nodes: vec![node("a.aleo", "/a", vec![1]), node("b.aleo", "/b", vec![0])],
    };
    let err = resolve(&graph, "p.aleo".to_string(), "/p".to_string(), true).unwrap_err();
    assert_eq!(err, DeployError::DependencyResolution);
}

#[test]
fn self_dependency_is_rejected() {
    let graph = LockGraph { nodes: vec![node("a.aleo", "/a", vec![0])] };
    let err = topo_order(&graph).unwrap_err();
    assert_eq!(err, DeployError::DependencyResolution);
}

#[test]
fn dangling_edge_is_rejected() {
    let graph = LockGraph { nodes: vec![node("a.aleo", "/a", vec![5])] };
    let err = resolve(&graph, "p.aleo".to_string(), "/p".to_string(), true).unwrap_err();
    assert_eq!(err, DeployError::DependencyResolution);
}

#[test]
fn empty_lock_yields_root_alone() {
    let graph = LockGraph { nodes: vec![] };
    let units = resolve(&graph, "p.aleo".to_string(), "/p".to_string(), true).unwrap();
    assert_eq!(units.len(), 1);
    assert_eq!(units[0].name, "p.aleo");
}
