use cir::decode::InfraredData;
use cir::graphviz::graphviz;
use cir::lower::lower;
use cir::matcher::Matcher;
use cir::nfa::{Action, Edge, Vertex};
use cir::timing::decode_options;

fn branchy() -> Vec<Vertex> {
    vec![
        Vertex {
            actions: vec![],
            edges: vec![Edge::Flash {
                length: 500,
                complete: true,
                dest: 1,
            }],
        },
        Vertex {
            actions: vec![Action::Assign {
                var: "F".to_string(),
                expr: "1".to_string(),
            }],
            edges: vec![
                Edge::Branch(2),
                Edge::Gap {
                    length: 700,
                    complete: false,
                    dest: 0,
                },
            ],
        },
        Vertex {
            actions: vec![Action::Done("irp".to_string(), vec!["F".to_string()])],
            edges: vec![Edge::Branch(1)],
        },
    ]
}

#[test]
fn branches_are_merged_into_their_sources() {
    let low = lower(&branchy());
    assert_eq!(low.len(), 3);
    assert_eq!(low[0].actions.len(), 0);
    assert_eq!(low[0].edges.len(), 1);
    assert_eq!(low[1].actions.len(), 2);
    assert!(matches!(&low[1].actions[0], Action::Assign { var, .. } if var == "F"));
    assert!(matches!(&low[1].actions[1], Action::Done(ev, names) if ev == "irp" && names == &vec!["F".to_string()]));
    assert!(matches!(&low[2].actions[0], Action::Done(..)));
    assert!(matches!(&low[2].actions[1], Action::Assign { .. }));
    for v in &low {
        assert!(v.edges.iter().all(|e| !matches!(e, Edge::Branch(_))));
    }
    assert!(matches!(low[1].edges[..], [Edge::Gap { length: 700, complete: false, dest: 0 }]));
    assert!(matches!(low[2].edges[..], [Edge::Gap { length: 700, complete: false, dest: 0 }]));
}

#[test]
fn lowering_twice_changes_nothing() {
    let once = lower(&branchy());
    let twice = lower(&once);
    assert_eq!(graphviz(&twice, "g", &vec![]), graphviz(&once, "g", &vec![]));
    assert_ne!(graphviz(&once, "g", &vec![]), graphviz(&branchy(), "g", &vec![]));
}

#[test]
fn lowered_graph_matches_as_before() {
    let o = decode_options("t", 100000, None, None);
    let g = branchy();
    let low = lower(&g);
    let s = vec![InfraredData::Flash(500), InfraredData::Gap(700), InfraredData::Flash(500)];
    let on_graph = Matcher::new().feed(&g, &s, &o);
    let on_lowered = Matcher::new().feed(&low, &s, &o);
    assert_eq!(on_graph, vec![vec![2], vec![], vec![2]]);
    assert_eq!(on_lowered, vec![vec![1], vec![], vec![1]]);
}

#[test]
fn lowering_empty_graph() {
    assert!(lower(&vec![]).is_empty());
}
