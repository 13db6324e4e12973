use uveddi::tools::dependency_analyzer::{add_known_dependencies, progress_report, DependencyGraph};

#[test]
fn known_dependencies_contain_cycles() {
    let mut g = DependencyGraph::new();
    add_known_dependencies(&mut g);
    let cycles = g.find_cycles();
    assert!(!cycles.is_empty());
    for pair in &cycles {
        assert_eq!(pair.len(), 2);
    }
}

#[test]
fn acyclic_graph_has_no_cycles() {
    let mut g = DependencyGraph::new();
    g.add_dependency("a".to_string(), "b".to_string());
    g.add_dependency("b".to_string(), "c".to_string());
    g.add_dependency("a".to_string(), "c".to_string());
    assert!(g.find_cycles().is_empty());
}

#[test]
fn two_cycle_is_reported_from_first_module() {
    let mut g = DependencyGraph::new();
    g.add_dependency("config::manager".to_string(), "analysis::detectors".to_string());
    g.add_dependency("analysis::detectors".to_string(), "config::manager".to_string());
    let cycles = g.find_cycles();
    assert_eq!(cycles, vec![vec!["analysis::detectors".to_string(), "config::manager".to_string()]]);
}

#[test]
fn edge_into_a_found_cycle_is_not_reported() {
    let mut g = DependencyGraph::new();
    g.add_dependency("a".to_string(), "b".to_string());
    g.add_dependency("b".to_string(), "a".to_string());
    g.add_dependency("c".to_string(), "a".to_string());
    assert_eq!(g.find_cycles(), vec![vec!["b".to_string(), "a".to_string()]]);
}

#[test]
fn separate_cycles_are_each_reported() {
    let mut g = DependencyGraph::new();
    g.add_dependency("a".to_string(), "b".to_string());
    g.add_dependency("b".to_string(), "a".to_string());
    g.add_dependency("c".to_string(), "d".to_string());
    g.add_dependency("d".to_string(), "c".to_string());
    assert_eq!(g.find_cycles().len(), 2);
}

#[test]
fn self_dependency_is_a_cycle() {
    let mut g = DependencyGraph::new();
    g.add_dependency("x".to_string(), "x".to_string());
    assert_eq!(g.find_cycles(), vec![vec!["x".to_string(), "x".to_string()]]);
}

#[test]
fn progress_report_counts_what_is_left() {
    let p = progress_report(2);
    assert_eq!(p.reduction, 2043);
    assert!(p.target_achieved);
    assert_eq!(p.remaining, 0);
    let p = progress_report(60);
    assert!(!p.target_achieved);
    assert_eq!(p.remaining, 10);
    assert_eq!(progress_report(50).remaining, 0);
}
