//! The protocol graph: vertices carrying actions, joined by timed edges.
use vstd::prelude::*;

verus! {

/// What a vertex does to the binding of a match thread that reaches it.
pub enum Action {
    /// Binds `var` to the value of the expression `expr`, written in IRP notation.
    Assign { var: String, expr: String },
    /// Requires that two expressions, written in IRP notation, are equal.
    AssertEq { left: String, right: String },
    /// Ends a match: the event name and the names of the variables it reports.
    Done(String, Vec<String>),
}

/// A transition between two vertices, named by their indices.
pub enum Edge {
    /// A pulse of nominal duration `length` (microseconds).
    Flash { length: u32, complete: bool, dest: usize },
    /// A silence of nominal duration `length` (microseconds).
    Gap { length: u32, complete: bool, dest: usize },
    /// Goes to `yes` when the condition holds, else to `no`.
    BranchCond { expr: String, yes: usize, no: usize },
    /// May go to `dest` when the condition holds, keeping the current vertex too.
    MayBranchCond { expr: String, dest: usize },
    /// Goes to `dest` unconditionally.
    Branch(usize),
}

/// A vertex of the graph: its actions, then its outbound edges.
pub struct Vertex {
    pub actions: Vec<Action>,
    pub edges: Vec<Edge>,
}

/// The variables bound along one match thread: name, value and bit width.
pub struct Vartable {
    pub vars: Vec<(String, i64, u8)>,
}

/// Whether an edge leads to a vertex with an index below `n`.
pub open spec fn edge_in_bounds(e: Edge, n: nat) -> bool {
    match e {
        Edge::Flash { dest, .. } => dest < n,
        Edge::Gap { dest, .. } => dest < n,
        Edge::BranchCond { yes, no, .. } => yes < n && no < n,
        Edge::MayBranchCond { dest, .. } => dest < n,
        Edge::Branch(dest) => dest < n,
    }
}

/// Every edge of every vertex leads to a vertex of the graph.
pub open spec fn graph_closed(verts: Seq<Vertex>) -> bool {
    forall|i: int, k: int|
        0 <= i < verts.len() && 0 <= k < verts[i].edges@.len() ==> edge_in_bounds(
            #[trigger] verts[i].edges@[k],
            verts.len(),
        )
}

} // verus!
