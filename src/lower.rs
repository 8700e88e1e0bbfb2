//! Lowering of a protocol graph: unconditional branches are eliminated by
//! giving each vertex the actions and the other edges of every vertex that
//! a chain of branches reaches from it.
use vstd::prelude::*;
use crate::matcher::{
    branch_closure, branch_round, branch_round_from, close_branches, edge_lists, matchable,
    threads_ok, vertex_branches,
};
use crate::nfa::{edge_in_bounds, graph_closed, Action, Edge, Vertex};

verus! {

/// An action as plain values: its kind, its two texts, and the names it reports.
pub type ActionModel = (nat, String, String, Seq<String>);

/// A vertex as plain values: its actions and its outbound edges.
pub type VertexModel = (Seq<ActionModel>, Seq<Edge>);

/// The plain values of an action.
pub open spec fn action_model(a: Action) -> ActionModel {
    match a {
        Action::Assign { var, expr } => (0, var, expr, Seq::empty()),
        Action::AssertEq { left, right } => (1, left, right, Seq::empty()),
        Action::Done(event, names) => (2, event, event, names@),
    }
}

/// The plain values of a list of actions.
pub open spec fn action_models(s: Seq<Action>) -> Seq<ActionModel> {
    s.map_values(|a: Action| action_model(a))
}

/// The plain values of a vertex.
pub open spec fn vertex_model(v: Vertex) -> VertexModel {
    (action_models(v.actions@), v.edges@)
}

/// The plain values of a graph.
pub open spec fn graph_model(g: Seq<Vertex>) -> Seq<VertexModel> {
    g.map_values(|v: Vertex| vertex_model(v))
}

/// The first `j` edges without the unconditional branches.
pub open spec fn plain_edges(edges: Seq<Edge>, j: int) -> Seq<Edge>
    decreases j,
{
    if j <= 0 {
        Seq::empty()
    } else {
        plain_edges(edges, j - 1) + if edges[j - 1] is Branch {
            Seq::empty()
        } else {
            seq![edges[j - 1]]
        }
    }
}

/// The actions of the first `k` vertices of `c`, in order.
pub open spec fn merged_actions(m: Seq<VertexModel>, c: Seq<usize>, k: int) -> Seq<ActionModel>
    decreases k,
{
    if k <= 0 {
        Seq::empty()
    } else {
        merged_actions(m, c, k - 1) + m[c[k - 1] as int].0
    }
}

/// The edges other than unconditional branches of the first `k` vertices
/// of `c`, in order.
pub open spec fn merged_edges(m: Seq<VertexModel>, c: Seq<usize>, k: int) -> Seq<Edge>
    decreases k,
{
    if k <= 0 {
        Seq::empty()
    } else {
        let edges = m[c[k - 1] as int].1;
        merged_edges(m, c, k - 1) + plain_edges(edges, edges.len() as int)
    }
}

/// The outbound edges of each vertex of a model.
pub open spec fn model_edges(m: Seq<VertexModel>) -> Seq<Seq<Edge>> {
    m.map_values(|p: VertexModel| p.1)
}

/// The vertices that a chain of branches reaches from vertex `i`, itself first.
pub open spec fn reach_of(m: Seq<VertexModel>, i: int) -> Seq<usize> {
    branch_closure(model_edges(m), seq![i as usize], m.len())
}

/// The lowered graph: each vertex takes the actions, and the edges other
/// than unconditional branches, of the vertices that branches reach from it.
pub open spec fn lower_model(m: Seq<VertexModel>) -> Seq<VertexModel> {
    Seq::new(
        m.len(),
        |i: int|
            (
                merged_actions(m, reach_of(m, i), reach_of(m, i).len() as int),
                merged_edges(m, reach_of(m, i), reach_of(m, i).len() as int),
            ),
    )
}

fn copy_edge(e: &Edge) -> (r: Edge)
    ensures
        r == *e,
{
    match e {
        Edge::Flash { length, complete, dest } => Edge::Flash {
            length: *length,
            complete: *complete,
            dest: *dest,
        },
        Edge::Gap { length, complete, dest } => Edge::Gap {
            length: *length,
            complete: *complete,
            dest: *dest,
        },
        Edge::BranchCond { expr, yes, no } => Edge::BranchCond {
            expr: expr.clone(),
            yes: *yes,
            no: *no,
        },
        Edge::MayBranchCond { expr, dest } => Edge::MayBranchCond { expr: expr.clone(), dest: *dest },
        Edge::Branch(dest) => Edge::Branch(*dest),
    }
}

fn copy_names(names: &Vec<String>) -> (r: Vec<String>)
    ensures
        r@ == names@,
{
    let mut res: Vec<String> = Vec::new();
    let mut i: usize = 0;
    while i < names.len()
        invariant
            i <= names@.len(),
            res@ == names@.take(i as int),
        decreases names.len() - i,
    {
        res.push(names[i].clone());
        assert(res@ =~= names@.take(i + 1));
        i += 1;
    }
    assert(names@.take(i as int) =~= names@);
    res
}

fn copy_action(a: &Action) -> (r: Action)
    ensures
        action_model(r) == action_model(*a),
{
    match a {
        Action::Assign { var, expr } => Action::Assign { var: var.clone(), expr: expr.clone() },
        Action::AssertEq { left, right } => Action::AssertEq {
            left: left.clone(),
            right: right.clone(),
        },
        Action::Done(event, names) => Action::Done(event.clone(), copy_names(names)),
    }
}

/// Whether a list of edges holds no unconditional branch.
pub open spec fn branch_free(edges: Seq<Edge>) -> bool {
    forall|k: int| 0 <= k < edges.len() ==> !(#[trigger] edges[k] is Branch)
}

proof fn lemma_plain_branch_free(edges: Seq<Edge>, j: int)
    ensures
        branch_free(plain_edges(edges, j)),
    decreases j,
{
    if j > 0 {
        lemma_plain_branch_free(edges, j - 1);
    }
}

proof fn lemma_merged_branch_free(m: Seq<VertexModel>, c: Seq<usize>, k: int)
    ensures
        branch_free(merged_edges(m, c, k)),
    decreases k,
{
    if k > 0 {
        lemma_merged_branch_free(m, c, k - 1);
        let edges = m[c[k - 1] as int].1;
        lemma_plain_branch_free(edges, edges.len() as int);
    }
}

proof fn lemma_plain_keeps(edges: Seq<Edge>, j: int)
    requires
        branch_free(edges),
        0 <= j <= edges.len(),
    ensures
        plain_edges(edges, j) == edges.take(j),
    decreases j,
{
    if j > 0 {
        lemma_plain_keeps(edges, j - 1);
        assert(!(edges[j - 1] is Branch));
        assert(edges.take(j) =~= edges.take(j - 1).push(edges[j - 1]));
    } else {
        assert(edges.take(0) =~= Seq::<Edge>::empty());
    }
}

proof fn lemma_no_branches_added(acc: Seq<usize>, edges: Seq<Edge>, j: int)
    requires
        branch_free(edges),
        j <= edges.len(),
    ensures
        vertex_branches(acc, edges, j) == acc,
    decreases j,
{
    if j > 0 {
        lemma_no_branches_added(acc, edges, j - 1);
        assert(!(edges[j - 1] is Branch));
    }
}

proof fn lemma_round_keeps(es: Seq<Seq<Edge>>, s: Seq<usize>, k: int)
    requires
        forall|x: int| 0 <= x < s.len() ==> #[trigger] s[x] < es.len() && branch_free(es[s[x] as int]),
        k <= s.len(),
    ensures
        branch_round_from(es, s, k) == s,
    decreases k,
{
    if k > 0 {
        lemma_round_keeps(es, s, k - 1);
        let edges = es[s[k - 1] as int];
        lemma_no_branches_added(s, edges, edges.len() as int);
    }
}

proof fn lemma_closure_keeps(es: Seq<Seq<Edge>>, s: Seq<usize>, n: nat)
    requires
        forall|x: int| 0 <= x < s.len() ==> #[trigger] s[x] < es.len() && branch_free(es[s[x] as int]),
    ensures
        branch_closure(es, s, n) == s,
    decreases n,
{
    if n > 0 {
        lemma_round_keeps(es, s, s.len() as int);
        assert(branch_round(es, s) == s);
        lemma_closure_keeps(es, s, (n - 1) as nat);
    }
}

/// Lowering is idempotent: a lowered graph lowers to itself.
pub proof fn lemma_lower_idempotent(m: Seq<VertexModel>)
    requires
        m.len() <= usize::MAX,
    ensures
        lower_model(lower_model(m)) == lower_model(m),
{
    let m1 = lower_model(m);
    assert forall|i: int| 0 <= i < m1.len() implies lower_model(m1)[i] == m1[i] by {
        let es = model_edges(m1);
        let s = seq![i as usize];
        assert(s[0] as int == i);
        assert forall|x: int| 0 <= x < s.len() implies #[trigger] s[x] < es.len() && branch_free(
            es[s[x] as int],
        ) by {
            let c = reach_of(m, i);
            lemma_merged_branch_free(m, c, c.len() as int);
        }
        lemma_closure_keeps(es, s, m1.len());
        assert(reach_of(m1, i) == s);
        let own = m1[i].1;
        lemma_merged_branch_free(m, reach_of(m, i), reach_of(m, i).len() as int);
        lemma_plain_keeps(own, own.len() as int);
        assert(own.take(own.len() as int) =~= own);
        assert(merged_actions(m1, s, 0) =~= Seq::<ActionModel>::empty());
        assert(merged_edges(m1, s, 0) =~= Seq::<Edge>::empty());
        assert(merged_actions(m1, s, 1) =~= m1[i].0);
        assert(merged_edges(m1, s, 1) =~= own);
    }
    assert(lower_model(m1) =~= m1);
}

/// Lowers a graph: each vertex takes the actions, and the edges other than
/// unconditional branches, of every vertex that a chain of branches reaches
/// from it, itself first.
pub fn lower(verts: &Vec<Vertex>) -> (r: Vec<Vertex>)
    requires
        graph_closed(verts@),
    ensures
        graph_model(r@) == lower_model(graph_model(verts@)),
        graph_closed(r@),
{
    let ghost m = graph_model(verts@);
    assert(model_edges(m) =~= edge_lists(verts@));
    let mut res: Vec<Vertex> = Vec::new();
    let mut i: usize = 0;
    while i < verts.len()
        invariant
            i <= verts@.len(),
            graph_closed(verts@),
            m == graph_model(verts@),
            model_edges(m) == edge_lists(verts@),
            res@.len() == i,
            graph_model(res@) == lower_model(m).take(i as int),
            forall|a: int, k: int|
                0 <= a < res@.len() && 0 <= k < res@[a].edges@.len() ==> edge_in_bounds(
                    #[trigger] res@[a].edges@[k],
                    verts@.len(),
                ),
        decreases verts.len() - i,
    {
        let start = vec![i];
        assert(start@ == seq![i]);
        assert(threads_ok(verts@, start@));
        let c = close_branches(verts, start);
        assert(c@ == reach_of(m, i as int));
        let mut acts: Vec<Action> = Vec::new();
        let mut edges: Vec<Edge> = Vec::new();
        let mut k: usize = 0;
        assert(action_models(acts@) =~= merged_actions(m, c@, 0));
        while k < c.len()
            invariant
                matchable(verts@),
                m == graph_model(verts@),
                threads_ok(verts@, c@),
                k <= c@.len(),
                action_models(acts@) == merged_actions(m, c@, k as int),
                edges@ == merged_edges(m, c@, k as int),
                forall|e: int| 0 <= e < edges@.len() ==> edge_in_bounds(
                    #[trigger] edges@[e],
                    verts@.len(),
                ),
            decreases c.len() - k,
        {
            let v = &verts[c[k]];
            let ghost acts0 = action_models(acts@);
            let ghost edges0 = edges@;
            assert(m[c@[k as int] as int] == vertex_model(*v));
            let mut j: usize = 0;
            while j < v.actions.len()
                invariant
                    j <= v.actions@.len(),
                    action_models(acts@) == acts0 + action_models(v.actions@).take(j as int),
                decreases v.actions.len() - j,
            {
                let a = copy_action(&v.actions[j]);
                let ghost before = acts@;
                acts.push(a);
                assert(action_models(acts@) =~= action_models(before).push(action_model(a)));
                assert(action_models(v.actions@).take(j + 1) =~= action_models(v.actions@).take(
                    j as int,
                ).push(action_model(v.actions@[j as int])));
                j += 1;
            }
            assert(action_models(v.actions@).take(j as int) =~= action_models(v.actions@));
            let mut j: usize = 0;
            while j < v.edges.len()
                invariant
                    matchable(verts@),
                    c@[k as int] < verts@.len(),
                    *v == verts@[c@[k as int] as int],
                    j <= v.edges@.len(),
                    edges@ == edges0 + plain_edges(v.edges@, j as int),
                    forall|e: int| 0 <= e < edges@.len() ==> edge_in_bounds(
                        #[trigger] edges@[e],
                        verts@.len(),
                    ),
                decreases v.edges.len() - j,
            {
                if let Edge::Branch(..) = &v.edges[j] {
                    assert(plain_edges(v.edges@, j + 1) =~= plain_edges(v.edges@, j as int));
                } else {
                    assert(edge_in_bounds(verts@[c@[k as int] as int].edges@[j as int], verts@.len()));
                    let e = copy_edge(&v.edges[j]);
                    edges.push(e);
                    assert(plain_edges(v.edges@, j + 1) =~= plain_edges(v.edges@, j as int).push(e));
                }
                assert(edges@ =~= edges0 + plain_edges(v.edges@, j + 1));
                j += 1;
            }
            assert(merged_actions(m, c@, k + 1) =~= acts0 + action_models(v.actions@));
            assert(merged_edges(m, c@, k + 1) =~= edges0 + plain_edges(v.edges@, v.edges@.len() as int));
            k += 1;
        }
        let nv = Vertex { actions: acts, edges };
        let ghost before = res@;
        res.push(nv);
        assert(graph_model(res@) =~= graph_model(before).push(vertex_model(nv)));
        assert(lower_model(m).take(i + 1) =~= lower_model(m).take(i as int).push(vertex_model(nv)));
        i += 1;
    }
    assert(lower_model(m).take(i as int) =~= lower_model(m));
    res
}

} // verus!
