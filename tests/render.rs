use cir::graphviz::{graphviz, no_to_name};
use cir::nfa::{Action, Edge, Vartable, Vertex};

#[test]
fn short_names_are_base26_letters() {
    assert_eq!(no_to_name(0), "A");
    assert_eq!(no_to_name(25), "Z");
    assert_eq!(no_to_name(26), "BA");
    assert_eq!(no_to_name(27), "BB");
    assert_eq!(no_to_name(676), "BAA");
    assert_eq!(no_to_name(702), "BBA");
}

fn small_graph() -> Vec<Vertex> {
    vec![
        Vertex {
            actions: vec![Action::Assign {
                var: "F".to_string(),
                expr: "0".to_string(),
            }],
            edges: vec![
                Edge::Flash {
                    length: 564,
                    complete: true,
                    dest: 1,
                },
                Edge::BranchCond {
                    expr: "F > 1".to_string(),
                    yes: 1,
                    no: 2,
                },
            ],
        },
        Vertex {
            actions: vec![],
            edges: vec![
                Edge::Gap {
                    length: 1692,
                    complete: false,
                    dest: 2,
                },
                Edge::MayBranchCond {
                    expr: "F = 0".to_string(),
                    dest: 0,
                },
                Edge::Branch(2),
            ],
        },
        Vertex {
            actions: vec![
                Action::AssertEq {
                    left: "F".to_string(),
                    right: "~F".to_string(),
                },
                Action::Done("irp".to_string(), vec!["F".to_string(), "D".to_string()]),
            ],
            edges: vec![],
        },
    ]
}

#[test]
fn graph_renders_as_dot() {
    let dot = graphviz(&small_graph(), "nec", &vec![]);
    let expected = "strict digraph nec {\n\
        \t\"A (0)\" [label=\"A (0)\\nF = 0\\ncond: F > 1\"]\n\
        \t\"B (1)\" [label=\"B (1)\\nmay cond: F = 0\"]\n\
        \t\"done (2)\" [label=\"done (2)\\nassert F = ~F\\nirp (F, D)\"]\n\
        \t\"A (0)\" -> \"B (1)\" [label=\"flash 564  complete\"]\n\
        \t\"A (0)\" -> \"B (1)\" [label=\"cond: true\"]\n\
        \t\"A (0)\" -> \"done (2)\" [label=\"cond: false\"]\n\
        \t\"B (1)\" -> \"done (2)\" [label=\"gap 1692 \"]\n\
        \t\"B (1)\" -> \"A (0)\" [label=\"may branch\"]\n\
        \t\"B (1)\" -> \"done (2)\"\n\
        }\n";
    assert_eq!(dot, expected);
}

#[test]
fn graph_state_is_highlighted() {
    let states = vec![(
        1usize,
        Vartable {
            vars: vec![("D".to_string(), 4, 8), ("S".to_string(), -12, 8)],
        },
    )];
    let dot = graphviz(&small_graph(), "g", &states);
    assert!(dot.contains("\t\"B (1)\" [label=\"B (1)\\nmay cond: F = 0\\nstate: D=4, S=-12\"] [color=red]\n"));
}

#[test]
fn unlabelled_vertex_has_no_line() {
    let verts = vec![
        Vertex {
            actions: vec![],
            edges: vec![Edge::Branch(1)],
        },
        Vertex {
            actions: vec![],
            edges: vec![],
        },
    ];
    let dot = graphviz(&verts, "x", &vec![]);
    assert_eq!(dot, "strict digraph x {\n\t\"A (0)\" -> \"B (1)\"\n}\n");
}

#[test]
fn empty_graph_renders_header_and_footer() {
    assert_eq!(graphviz(&vec![], "empty", &vec![]), "strict digraph empty {\n}\n");
}
