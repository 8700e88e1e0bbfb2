use cir::decode::InfraredData;
use cir::matcher::Matcher;
use cir::nfa::{Action, Edge, Vertex};
use cir::timing::{decode_options, Options};

fn flash(length: u32, dest: usize) -> Edge {
    Edge::Flash {
        length,
        complete: true,
        dest,
    }
}

fn gap(length: u32, dest: usize) -> Edge {
    Edge::Gap {
        length,
        complete: true,
        dest,
    }
}

fn vertex(edges: Vec<Edge>) -> Vertex {
    Vertex {
        actions: vec![],
        edges,
    }
}

fn done_vertex() -> Vertex {
    Vertex {
        actions: vec![Action::Done("irp".to_string(), vec!["CODE".to_string()])],
        edges: vec![],
    }
}

/// flash `a`, gap `b`, flash `c`, then a completed match at vertex 3.
fn chain(a: u32, b: u32, c: u32) -> Vec<Vertex> {
    vec![vertex(vec![flash(a, 1)]), vertex(vec![gap(b, 2)]), vertex(vec![flash(c, 3)]), done_vertex()]
}

fn opts(max_gap: u32) -> Options {
    decode_options("test", max_gap, Some(100), Some(3))
}

fn events(m: &mut Matcher, verts: &Vec<Vertex>, ts: Vec<InfraredData>, o: &Options) -> Vec<Vec<usize>> {
    m.feed(verts, &ts, o)
}

#[test]
fn frame_completes_and_thread_retires() {
    let verts = chain(9000, 4500, 564);
    let o = opts(100000);
    let mut m = Matcher::new();
    let ev = events(
        &mut m,
        &verts,
        vec![InfraredData::Flash(9000), InfraredData::Gap(4500), InfraredData::Flash(564)],
        &o,
    );
    assert_eq!(ev, vec![vec![], vec![], vec![3]]);
    assert_eq!(m.threads, vec![0]);
}

#[test]
fn long_intra_frame_gap_discards_partial_frame() {
    let verts = chain(9000, 60000, 564);
    let mut m = Matcher::new();
    let ev = events(
        &mut m,
        &verts,
        vec![InfraredData::Flash(9000), InfraredData::Gap(60000), InfraredData::Flash(564)],
        &opts(50000),
    );
    assert_eq!(ev, vec![vec![], vec![], vec![]]);
    assert_eq!(m.threads, vec![0]);
    let mut m = Matcher::new();
    let ev = events(
        &mut m,
        &verts,
        vec![InfraredData::Flash(9000), InfraredData::Gap(60000), InfraredData::Flash(564)],
        &opts(100000),
    );
    assert_eq!(ev, vec![vec![], vec![], vec![3]]);
}

#[test]
fn gap_just_below_max_gap_continues() {
    let verts = chain(500, 49999, 500);
    let mut m = Matcher::new();
    let ev = events(
        &mut m,
        &verts,
        vec![InfraredData::Flash(500), InfraredData::Gap(49999), InfraredData::Flash(500)],
        &opts(50000),
    );
    assert_eq!(ev[2], vec![3]);
    let mut m = Matcher::new();
    let ev = events(
        &mut m,
        &verts,
        vec![InfraredData::Flash(500), InfraredData::Gap(50000), InfraredData::Flash(500)],
        &opts(50000),
    );
    assert_eq!(ev[2], Vec::<usize>::new());
}

#[test]
fn reset_replays_the_same_events() {
    let verts = chain(9000, 4500, 564);
    let o = opts(100000);
    let s = vec![
        InfraredData::Flash(9000),
        InfraredData::Gap(4500),
        InfraredData::Flash(564),
        InfraredData::Gap(40000),
        InfraredData::Flash(9000),
    ];
    let once = events(&mut Matcher::new(), &verts, s.clone(), &o);
    let mut twice_input = s.clone();
    twice_input.push(InfraredData::Reset);
    twice_input.extend(s.iter().copied());
    let twice = events(&mut Matcher::new(), &verts, twice_input, &o);
    let mut expected = once.clone();
    expected.push(vec![]);
    expected.extend(once.iter().cloned());
    assert_eq!(twice, expected);
    assert_eq!(once[2], vec![3]);
}

#[test]
fn jitter_within_tolerance_still_matches() {
    let verts = chain(9000, 4500, 564);
    let o = opts(100000);
    // bands: 9000 -> 8630..=9370, 4500 -> 4265..=4735, 564 -> 448..=680
    for (a, b, c) in [(8630, 4265, 448), (9370, 4735, 680), (9100, 4400, 600)] {
        let ev = events(
            &mut Matcher::new(),
            &verts,
            vec![InfraredData::Flash(a), InfraredData::Gap(b), InfraredData::Flash(c)],
            &o,
        );
        assert_eq!(ev[2], vec![3]);
    }
    let ev = events(
        &mut Matcher::new(),
        &verts,
        vec![InfraredData::Flash(8629), InfraredData::Gap(4500), InfraredData::Flash(564)],
        &o,
    );
    assert_eq!(ev, vec![vec![], vec![], vec![]]);
}

#[test]
fn overlapping_hypotheses_report_once() {
    let verts = vec![
        vertex(vec![flash(500, 1), flash(600, 2)]),
        vertex(vec![gap(500, 3)]),
        vertex(vec![gap(500, 3)]),
        done_vertex(),
    ];
    let o = opts(100000);
    let mut m = Matcher::new();
    let first = m.input(&verts, InfraredData::Flash(550), &o);
    assert!(first.is_empty());
    assert_eq!(m.threads, vec![1, 2]);
    let second = m.input(&verts, InfraredData::Gap(500), &o);
    assert_eq!(second, vec![3]);
}

#[test]
fn threads_never_exceed_vertices() {
    let verts = vec![
        vertex(vec![flash(500, 1), flash(500, 2), flash(500, 0)]),
        vertex(vec![flash(500, 0), flash(500, 1), flash(500, 2)]),
        vertex(vec![flash(500, 2), flash(500, 1)]),
    ];
    let o = opts(100000);
    let mut m = Matcher::new();
    for _ in 0..10 {
        m.input(&verts, InfraredData::Flash(500), &o);
        assert!(m.threads.len() <= verts.len());
    }
    assert_eq!(m.threads.len(), 3);
}

#[test]
fn unmatched_token_reseeds_start() {
    let verts = chain(9000, 4500, 564);
    let o = opts(100000);
    let mut m = Matcher::new();
    m.input(&verts, InfraredData::Flash(9000), &o);
    assert_eq!(m.threads, vec![1]);
    m.input(&verts, InfraredData::Flash(9000), &o);
    assert_eq!(m.threads, vec![0]);
    m.input(&verts, InfraredData::Reset, &o);
    assert_eq!(m.threads, vec![0]);
}

#[test]
fn branch_edges_are_followed() {
    let verts = vec![
        vertex(vec![flash(500, 1)]),
        vertex(vec![Edge::Branch(2), gap(700, 0)]),
        vertex(vec![Edge::Branch(3), Edge::Branch(1)]),
        done_vertex(),
    ];
    let o = opts(100000);
    let mut m = Matcher::new();
    let ev = m.input(&verts, InfraredData::Flash(500), &o);
    assert_eq!(ev, vec![3]);
    assert_eq!(m.threads, vec![1, 2]);
    let ev = m.input(&verts, InfraredData::Gap(700), &o);
    assert!(ev.is_empty());
    assert_eq!(m.threads, vec![0]);
}

#[test]
fn conditional_edges_are_not_followed() {
    let verts = vec![
        vertex(vec![flash(500, 1)]),
        vertex(vec![Edge::BranchCond {
            expr: "F = 1".to_string(),
            yes: 2,
            no: 0,
        }]),
        done_vertex(),
    ];
    let o = opts(100000);
    let mut m = Matcher::new();
    assert!(m.input(&verts, InfraredData::Flash(500), &o).is_empty());
    assert_eq!(m.threads, vec![1]);
}
