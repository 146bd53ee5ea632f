use electron_architect::coords::Coords;
use electron_architect::graph::elbow::Elbow;
use electron_architect::graph::gate::{Gate, Gate1};
use electron_architect::graph::Graph;

#[test]
fn test_new_graph() {
    let graph = Graph::new();
    assert_eq!(graph.nodes.len(), 0);
}

#[test]
fn test_add_node() {
    let mut graph = Graph::new();

    let test_gate: Gate = Gate::G1(Gate1::Buffer);
    let test_coords: Coords = Coords { x: 0, y: 0 };

    graph.add_node(&test_gate, &test_coords);
    assert_eq!(graph.nodes.len(), 1);
    assert!(graph.nodes.last().unwrap().gate == test_gate);
    assert!(graph.nodes.last().unwrap().coords == test_coords);
}

#[test]
fn test_add_node_returns_index() {
    let mut graph = Graph::new();
    let gate: Gate = Gate::G1(Gate1::Buffer);
    let a = graph.add_node(&gate, &Coords { x: 0, y: 0 });
    let b = graph.add_node(&gate, &Coords { x: 1, y: 1 });
    assert_eq!(a, 0);
    assert_eq!(b, 1);
}

#[test]
fn test_add_wire() {
    let mut graph = Graph::new();
    let gate: Gate = Gate::G1(Gate1::Buffer);
    let a = graph.add_node(&gate, &Coords { x: 0, y: 0 });
    let b = graph.add_node(&gate, &Coords { x: 4, y: 4 });
    let w = graph.add_wire(a, b, &Elbow::HorzS);
    assert_eq!(w, 0);
    assert_eq!(graph.wires.len(), 1);
    assert_eq!(graph.wires[0].input, a);
    assert_eq!(graph.wires[0].output, b);
    assert!(graph.wires[0].elbow == Elbow::HorzS);
}

#[test]
fn test_find_node_at_coords() {
    let mut graph = Graph::new();
    let gate: Gate = Gate::G1(Gate1::Buffer);
    let target = Coords { x: 2, y: 3 };

    assert!(graph.find_node_at_coords(&target).is_none());

    graph.add_node(&gate, &Coords { x: 0, y: 0 });
    graph.add_node(&Gate::G1(Gate1::Buffer), &target);
    graph.add_node(&gate, &target);

    let found = graph.find_node_at_coords(&target).expect("node should be found");
    assert!(found.coords == target);

    assert!(graph.find_node_at_coords(&Coords { x: 9, y: 9 }).is_none());
}
