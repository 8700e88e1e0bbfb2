//! Rendering of a protocol graph as a GraphViz dot document.
use vstd::prelude::*;
use crate::nfa::{edge_in_bounds, graph_closed, Action, Edge, Vartable, Vertex};
use crate::text::{
    join_strings, joined, prepend_char, radix, render_radix, render_signed,
    signed_decimal, views,
};

verus! {

/// The capital letter for a digit below 26.
pub open spec fn letter(d: nat) -> char {
    ((65 + d) as u8) as char
}

/// The base-26 short name of a number: digits written as capital letters,
/// most significant first, `A` standing for zero.
pub open spec fn base26(n: nat) -> Seq<char>
    decreases n,
{
    if n < 26 {
        seq![letter(n)]
    } else {
        base26(n / 26) + seq![letter(n % 26)]
    }
}

/// The short identifier of the vertex with the given ordinal.
pub fn no_to_name(no: usize) -> (r: String)
    ensures
        r@ == base26(no as nat),
{
    let mut n = no;
    let mut res = String::new();
    loop
        invariant
            base26(no as nat) == base26(n as nat) + res@,
        decreases n,
    {
        let ch = (65u8 + (n % 26) as u8) as char;
        assert(ch == letter((n % 26) as nat));
        let ghost before = res@;
        prepend_char(&mut res, ch);
        if n < 26 {
            assert(base26(n as nat) == seq![letter(n as nat)]);
            assert(res@ =~= base26(no as nat));
            return res;
        }
        assert(base26(n as nat) == base26((n / 26) as nat) + seq![letter((n % 26) as nat)]);
        assert(base26(n as nat) + before =~= base26((n / 26) as nat) + res@);
        n = n / 26;
    }
}

/// Whether one of the actions ends a match.
pub open spec fn has_done(acts: Seq<Action>) -> bool {
    exists|i: int| 0 <= i < acts.len() && #[trigger] acts[i] is Done
}

/// The label of a vertex: `done (n)` for one that ends a match, else its
/// short identifier followed by its index.
pub open spec fn vertex_name(no: nat, v: Vertex) -> Seq<char> {
    if has_done(v.actions@) {
        "done ("@ + radix(no, false) + ")"@
    } else {
        base26(no) + " ("@ + radix(no, false) + ")"@
    }
}

/// The labels of all vertices, by index.
pub open spec fn vertex_names(verts: Seq<Vertex>) -> Seq<Seq<char>> {
    Seq::new(verts.len(), |i: int| vertex_name(i as nat, verts[i]))
}

/// The text of an action in a vertex label.
pub open spec fn action_text(a: Action) -> Seq<char> {
    match a {
        Action::Assign { var, expr } => var@ + " = "@ + expr@,
        Action::AssertEq { left, right } => "assert "@ + left@ + " = "@ + right@,
        Action::Done(event, res) => event@ + " ("@ + joined(views(res@), ", "@) + ")"@,
    }
}

/// The condition of the first edge from index `i` on that is a `BranchCond`
/// (when `may` is false) or a `MayBranchCond` (when `may` is true).
pub open spec fn first_cond(edges: Seq<Edge>, i: int, may: bool) -> Option<Seq<char>>
    decreases edges.len() - i,
{
    if i < 0 || i >= edges.len() {
        None
    } else {
        match edges[i] {
            Edge::BranchCond { expr, .. } => if !may {
                Some(expr@)
            } else {
                first_cond(edges, i + 1, may)
            },
            Edge::MayBranchCond { expr, .. } => if may {
                Some(expr@)
            } else {
                first_cond(edges, i + 1, may)
            },
            _ => first_cond(edges, i + 1, may),
        }
    }
}

/// The binding of the first state from index `i` on that sits at vertex `no`.
pub open spec fn state_at(states: Seq<(usize, Vartable)>, no: nat, i: int) -> Option<Vartable>
    decreases states.len() - i,
{
    if i < 0 || i >= states.len() {
        None
    } else if states[i].0 == no {
        Some(states[i].1)
    } else {
        state_at(states, no, i + 1)
    }
}

/// The bindings of a variable table, each as `name=value`.
pub open spec fn binding_texts(vars: Seq<(String, i64, u8)>) -> Seq<Seq<char>> {
    Seq::new(vars.len(), |i: int| vars[i].0@ + "="@ + signed_decimal(vars[i].1 as int))
}

/// A label with a prefix when there is something to show, else none.
pub open spec fn optional_label(prefix: Seq<char>, o: Option<Seq<char>>) -> Seq<Seq<char>> {
    match o {
        Some(t) => seq![prefix + t],
        None => Seq::empty(),
    }
}

/// The labels of a vertex: its actions, its first condition, its first
/// speculative condition, and the binding of a state that sits there.
pub open spec fn vertex_labels(v: Vertex, no: nat, states: Seq<(usize, Vartable)>) -> Seq<
    Seq<char>,
> {
    Seq::new(v.actions@.len(), |i: int| action_text(v.actions@[i])) + optional_label(
        "cond: "@,
        first_cond(v.edges@, 0, false),
    ) + optional_label("may cond: "@, first_cond(v.edges@, 0, true)) + match state_at(
        states,
        no,
        0,
    ) {
        Some(t) => seq!["state: "@ + joined(binding_texts(t.vars@), ", "@)],
        None => Seq::empty(),
    }
}

/// The dot line that declares a vertex, empty when it has no label.
pub open spec fn vertex_line(v: Vertex, no: nat, states: Seq<(usize, Vartable)>) -> Seq<char> {
    let name = vertex_name(no, v);
    let labels = vertex_labels(v, no, states);
    let color = if state_at(states, no, 0) is Some {
        " [color=red]"@
    } else {
        Seq::empty()
    };
    if labels.len() > 0 {
        "\t\""@ + name + "\" [label=\""@ + name + "\\n"@ + joined(labels, "\\n"@) + "\"]"@ + color
            + "\n"@
    } else {
        Seq::empty()
    }
}

/// The declaration lines of the first `k` vertices.
pub open spec fn vertex_lines(verts: Seq<Vertex>, states: Seq<(usize, Vartable)>, k: int) -> Seq<
    char,
>
    decreases k,
{
    if k <= 0 {
        Seq::empty()
    } else {
        vertex_lines(verts, states, k - 1) + vertex_line(verts[k - 1], (k - 1) as nat, states)
    }
}

/// The start of a dot arrow between two named vertices.
pub open spec fn arrow(from: Seq<char>, to: Seq<char>) -> Seq<char> {
    "\t\""@ + from + "\" -> \""@ + to + "\""@
}

/// The label of a timed edge: kind, nominal length, and whether it is complete.
pub open spec fn timed_label(kind: Seq<char>, length: u32, complete: bool) -> Seq<char> {
    " [label=\""@ + kind + radix(length as nat, false) + " "@ + (if complete {
        " complete"@
    } else {
        Seq::empty()
    }) + "\"]\n"@
}

/// The dot lines of one edge leaving the vertex named `from`.
pub open spec fn edge_text(from: Seq<char>, e: Edge, names: Seq<Seq<char>>) -> Seq<char> {
    match e {
        Edge::Flash { length, complete, dest } => arrow(from, names[dest as int]) + timed_label(
            "flash "@,
            length,
            complete,
        ),
        Edge::Gap { length, complete, dest } => arrow(from, names[dest as int]) + timed_label(
            "gap "@,
            length,
            complete,
        ),
        Edge::BranchCond { yes, no, .. } => arrow(from, names[yes as int])
            + " [label=\"cond: true\"]\n"@ + arrow(from, names[no as int])
            + " [label=\"cond: false\"]\n"@,
        Edge::MayBranchCond { dest, .. } => arrow(from, names[dest as int])
            + " [label=\"may branch\"]\n"@,
        Edge::Branch(dest) => arrow(from, names[dest as int]) + "\n"@,
    }
}

/// The dot lines of the first `k` edges of a vertex.
pub open spec fn edges_text(v: Vertex, from: Seq<char>, names: Seq<Seq<char>>, k: int) -> Seq<
    char,
>
    decreases k,
{
    if k <= 0 {
        Seq::empty()
    } else {
        edges_text(v, from, names, k - 1) + edge_text(from, v.edges@[k - 1], names)
    }
}

/// The edge lines of the first `k` vertices.
pub open spec fn edge_lines(verts: Seq<Vertex>, k: int) -> Seq<char>
    decreases k,
{
    if k <= 0 {
        Seq::empty()
    } else {
        edge_lines(verts, k - 1) + edges_text(
            verts[k - 1],
            vertex_names(verts)[k - 1],
            vertex_names(verts),
            verts[k - 1].edges@.len() as int,
        )
    }
}

/// The whole dot document of a graph, with the given states highlighted.
pub open spec fn dot_text(verts: Seq<Vertex>, name: Seq<char>, states: Seq<(usize, Vartable)>) -> Seq<
    char,
> {
    "strict digraph "@ + name + " {\n"@ + vertex_lines(verts, states, verts.len() as int)
        + edge_lines(verts, verts.len() as int) + "}\n"@
}

pub(crate) fn ends_match(acts: &Vec<Action>) -> (r: bool)
    ensures
        r == has_done(acts@),
{
    let mut i: usize = 0;
    while i < acts.len()
        invariant
            i <= acts.len(),
            forall|j: int| 0 <= j < i ==> !(#[trigger] acts@[j] is Done),
        decreases acts.len() - i,
    {
        if let Action::Done(..) = &acts[i] {
            return true;
        }
        i += 1;
    }
    false
}

fn render_vertex_name(no: usize, v: &Vertex) -> (r: String)
    ensures
        r@ == vertex_name(no as nat, *v),
{
    let mut res = if ends_match(&v.actions) {
        String::from_str("done (")
    } else {
        let mut t = no_to_name(no);
        t.append(" (");
        t
    };
    let digits = render_radix(no as u64, false);
    res.append(digits.as_str());
    res.append(")");
    res
}

fn render_action(a: &Action) -> (r: String)
    ensures
        r@ == action_text(*a),
{
    match a {
        Action::Assign { var, expr } => {
            let mut res = var.clone();
            res.append(" = ");
            res.append(expr.as_str());
            res
        },
        Action::AssertEq { left, right } => {
            let mut res = String::from_str("assert ");
            res.append(left.as_str());
            res.append(" = ");
            res.append(right.as_str());
            res
        },
        Action::Done(event, names) => {
            let mut res = event.clone();
            res.append(" (");
            let list = join_strings(names, ", ");
            res.append(list.as_str());
            res.append(")");
            res
        },
    }
}

fn find_cond(edges: &Vec<Edge>, may: bool) -> (r: Option<String>)
    ensures
        match r {
            Some(t) => first_cond(edges@, 0, may) == Some(t@),
            None => first_cond(edges@, 0, may) is None,
        },
{
    let mut i: usize = 0;
    while i < edges.len()
        invariant
            i <= edges.len(),
            first_cond(edges@, 0, may) == first_cond(edges@, i as int, may),
        decreases edges.len() - i,
    {
        match &edges[i] {
            Edge::BranchCond { expr, .. } => {
                if !may {
                    return Some(expr.clone());
                }
            },
            Edge::MayBranchCond { expr, .. } => {
                if may {
                    return Some(expr.clone());
                }
            },
            _ => {},
        }
        i += 1;
    }
    None
}

fn find_state(states: &Vec<(usize, Vartable)>, no: usize) -> (r: Option<usize>)
    ensures
        match r {
            Some(i) => i < states@.len() && state_at(states@, no as nat, 0) == Some(
                states@[i as int].1,
            ),
            None => state_at(states@, no as nat, 0) is None,
        },
{
    let mut i: usize = 0;
    while i < states.len()
        invariant
            i <= states.len(),
            state_at(states@, no as nat, 0) == state_at(states@, no as nat, i as int),
        decreases states.len() - i,
    {
        if states[i].0 == no {
            return Some(i);
        }
        i += 1;
    }
    None
}

fn push_view(v: &mut Vec<String>, s: String)
    ensures
        views(final(v)@) == views(old(v)@).push(s@),
{
    let ghost before = v@;
    v.push(s);
    assert(views(v@) =~= views(before).push(s@));
}

fn render_bindings(vars: &Vec<(String, i64, u8)>) -> (r: String)
    ensures
        r@ == joined(binding_texts(vars@), ", "@),
{
    let mut parts: Vec<String> = Vec::new();
    let mut i: usize = 0;
    while i < vars.len()
        invariant
            i <= vars.len(),
            views(parts@) == binding_texts(vars@).take(i as int),
        decreases vars.len() - i,
    {
        let mut t = vars[i].0.clone();
        t.append("=");
        let val = render_signed(vars[i].1);
        t.append(val.as_str());
        push_view(&mut parts, t);
        assert(binding_texts(vars@).take(i + 1) =~= binding_texts(vars@).take(i as int).push(
            t@,
        ));
        i += 1;
    }
    assert(binding_texts(vars@).take(i as int) =~= binding_texts(vars@));
    join_strings(&parts, ", ")
}

fn render_labels(v: &Vertex, no: usize, states: &Vec<(usize, Vartable)>) -> (r: Vec<String>)
    ensures
        views(r@) == vertex_labels(*v, no as nat, states@),
{
    let mut labels: Vec<String> = Vec::new();
    let ghost acts = Seq::new(v.actions@.len(), |i: int| action_text(v.actions@[i]));
    let mut i: usize = 0;
    while i < v.actions.len()
        invariant
            i <= v.actions@.len(),
            acts == Seq::new(v.actions@.len(), |i: int| action_text(v.actions@[i])),
            views(labels@) == acts.take(i as int),
        decreases v.actions.len() - i,
    {
        let t = render_action(&v.actions[i]);
        push_view(&mut labels, t);
        assert(acts.take(i + 1) =~= acts.take(i as int).push(t@));
        i += 1;
    }
    assert(acts.take(i as int) =~= acts);
    let ghost with_cond = acts + optional_label("cond: "@, first_cond(v.edges@, 0, false));
    if let Some(e) = find_cond(&v.edges, false) {
        let mut t = String::from_str("cond: ");
        t.append(e.as_str());
        push_view(&mut labels, t);
    }
    assert(views(labels@) =~= with_cond);
    let ghost with_may = with_cond + optional_label("may cond: "@, first_cond(v.edges@, 0, true));
    if let Some(e) = find_cond(&v.edges, true) {
        let mut t = String::from_str("may cond: ");
        t.append(e.as_str());
        push_view(&mut labels, t);
    }
    assert(views(labels@) =~= with_may);
    if let Some(k) = find_state(states, no) {
        let mut t = String::from_str("state: ");
        let b = render_bindings(&states[k].1.vars);
        t.append(b.as_str());
        push_view(&mut labels, t);
    }
    assert(views(labels@) =~= vertex_labels(*v, no as nat, states@));
    labels
}

fn render_edge(res: &mut String, from: &String, e: &Edge, names: &Vec<String>)
    requires
        edge_in_bounds(*e, names@.len() as nat),
    ensures
        final(res)@ == old(res)@ + edge_text(from@, *e, views(names@)),
{
    let ghost names_v = views(names@);
    let ghost start = res@;
    match e {
        Edge::Flash { length, complete, dest } => {
            render_arrow(res, from, &names[*dest]);
            render_timed(res, "flash ", *length, *complete);
        },
        Edge::Gap { length, complete, dest } => {
            render_arrow(res, from, &names[*dest]);
            render_timed(res, "gap ", *length, *complete);
        },
        Edge::BranchCond { yes, no, .. } => {
            render_arrow(res, from, &names[*yes]);
            res.append(" [label=\"cond: true\"]\n");
            render_arrow(res, from, &names[*no]);
            res.append(" [label=\"cond: false\"]\n");
        },
        Edge::MayBranchCond { dest, .. } => {
            render_arrow(res, from, &names[*dest]);
            res.append(" [label=\"may branch\"]\n");
        },
        Edge::Branch(dest) => {
            render_arrow(res, from, &names[*dest]);
            res.append("\n");
        },
    }
    assert(res@ =~= start + edge_text(from@, *e, names_v));
}

fn render_arrow(res: &mut String, from: &String, to: &String)
    ensures
        final(res)@ == old(res)@ + arrow(from@, to@),
{
    let ghost start = res@;
    res.append("\t\"");
    res.append(from.as_str());
    res.append("\" -> \"");
    res.append(to.as_str());
    res.append("\"");
    assert(res@ =~= start + arrow(from@, to@));
}

fn render_timed(res: &mut String, kind: &str, length: u32, complete: bool)
    ensures
        final(res)@ == old(res)@ + timed_label(kind@, length, complete),
{
    let ghost start = res@;
    res.append(" [label=\"");
    res.append(kind);
    let digits = render_radix(length as u64, false);
    res.append(digits.as_str());
    res.append(" ");
    if complete {
        res.append(" complete");
    }
    res.append("\"]\n");
    assert(res@ =~= start + timed_label(kind@, length, complete));
}

/// Renders a graph as a GraphViz dot document named `name`. Vertices at
/// which one of `states` sits are drawn in red, with that state's bindings.
pub fn graphviz(verts: &Vec<Vertex>, name: &str, states: &Vec<(usize, Vartable)>) -> (r: String)
    requires
        graph_closed(verts@),
    ensures
        r@ == dot_text(verts@, name@, states@),
{
    let mut res = String::from_str("strict digraph ");
    res.append(name);
    res.append(" {\n");
    let ghost header = res@;
    let mut names: Vec<String> = Vec::new();
    let mut no: usize = 0;
    while no < verts.len()
        invariant
            no <= verts@.len(),
            res@ == header + vertex_lines(verts@, states@, no as int),
            views(names@) == vertex_names(verts@).take(no as int),
        decreases verts.len() - no,
    {
        let v = &verts[no];
        let vname = render_vertex_name(no, v);
        let labels = render_labels(v, no, states);
        let ghost before = res@;
        if labels.len() > 0 {
            res.append("\t\"");
            res.append(vname.as_str());
            res.append("\" [label=\"");
            res.append(vname.as_str());
            res.append("\\n");
            let text = join_strings(&labels, "\\n");
            res.append(text.as_str());
            res.append("\"]");
            if find_state(states, no).is_some() {
                res.append(" [color=red]");
            }
            res.append("\n");
        }
        assert(res@ =~= before + vertex_line(verts@[no as int], no as nat, states@));
        assert(vertex_names(verts@).take(no + 1) =~= vertex_names(verts@).take(no as int).push(
            vname@,
        ));
        push_view(&mut names, vname);
        no += 1;
    }
    assert(vertex_names(verts@).take(no as int) =~= vertex_names(verts@));
    let ghost middle = res@;
    let mut i: usize = 0;
    while i < verts.len()
        invariant
            i <= verts@.len(),
            graph_closed(verts@),
            views(names@) == vertex_names(verts@),
            names@.len() == verts@.len(),
            res@ == middle + edge_lines(verts@, i as int),
        decreases verts.len() - i,
    {
        let v = &verts[i];
        let ghost line_start = res@;
        let mut k: usize = 0;
        while k < v.edges.len()
            invariant
                i < verts@.len(),
                k <= v.edges@.len(),
                *v == verts@[i as int],
                graph_closed(verts@),
                views(names@) == vertex_names(verts@),
                names@.len() == verts@.len(),
                res@ == line_start + edges_text(*v, views(names@)[i as int], views(names@), k as int),
            decreases v.edges.len() - k,
        {
            assert(edge_in_bounds(verts@[i as int].edges@[k as int], verts@.len()));
            let ghost before = res@;
            render_edge(&mut res, &names[i], &v.edges[k], &names);
            assert(res@ =~= line_start + edges_text(*v, views(names@)[i as int], views(names@), k + 1));
            k += 1;
        }
        assert(res@ =~= middle + edge_lines(verts@, i + 1));
        i += 1;
    }
    res.append("}\n");
    assert(res@ =~= dot_text(verts@, name@, states@));
    res
}

} // verus!
