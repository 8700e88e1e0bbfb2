//! The streaming matcher: the live set of graph positions, advanced one
//! received token at a time.
use vstd::prelude::*;
use vstd::set_lib::{lemma_int_range, lemma_len_subset, set_int_range};
use crate::config::{add_unique, with_unique};
use crate::decode::InfraredData;
use crate::graphviz::{ends_match, has_done};
use crate::nfa::{edge_in_bounds, graph_closed, Edge, Vertex};
use crate::timing::{accepts, ends_transmission, gap_resets, in_band, Options};

verus! {

/// Whether a timed edge admits a token: a flash edge a flash, a gap edge a
/// gap, each of a duration within the band of the edge's nominal length.
pub open spec fn admits(e: Edge, t: InfraredData, opts: Options) -> bool {
    match (e, t) {
        (Edge::Flash { length, .. }, InfraredData::Flash(d)) => in_band(
            length as nat,
            d as int,
            opts.eps as nat,
            opts.aeps as nat,
        ),
        (Edge::Gap { length, .. }, InfraredData::Gap(d)) => in_band(
            length as nat,
            d as int,
            opts.eps as nat,
            opts.aeps as nat,
        ),
        _ => false,
    }
}

/// The destination of a timed edge.
pub open spec fn timed_dest(e: Edge) -> usize {
    match e {
        Edge::Flash { dest, .. } => dest,
        Edge::Gap { dest, .. } => dest,
        _ => 0,
    }
}

/// `acc` extended with the destinations of the first `j` edges of `v` that
/// admit the token, each once.
pub open spec fn vertex_step(acc: Seq<usize>, v: Vertex, t: InfraredData, opts: Options, j: int) -> Seq<
    usize,
>
    decreases j,
{
    if j <= 0 {
        acc
    } else {
        let prev = vertex_step(acc, v, t, opts, j - 1);
        if admits(v.edges@[j - 1], t, opts) {
            with_unique(prev, timed_dest(v.edges@[j - 1]))
        } else {
            prev
        }
    }
}

/// The positions reached from the first `k` threads by one token, in order
/// of thread and then of edge, each once.
pub open spec fn threads_step(
    verts: Seq<Vertex>,
    threads: Seq<usize>,
    t: InfraredData,
    opts: Options,
    k: int,
) -> Seq<usize>
    decreases k,
{
    if k <= 0 {
        Seq::empty()
    } else {
        let v = verts[threads[k - 1] as int];
        vertex_step(threads_step(verts, threads, t, opts, k - 1), v, t, opts, v.edges@.len() as int)
    }
}

/// The outbound edges of each vertex.
pub open spec fn edge_lists(verts: Seq<Vertex>) -> Seq<Seq<Edge>> {
    verts.map_values(|v: Vertex| v.edges@)
}

/// `acc` extended with the destinations of the first `j` unconditional
/// branches among `edges`, each once.
pub open spec fn vertex_branches(acc: Seq<usize>, edges: Seq<Edge>, j: int) -> Seq<usize>
    decreases j,
{
    if j <= 0 {
        acc
    } else {
        let prev = vertex_branches(acc, edges, j - 1);
        match edges[j - 1] {
            Edge::Branch(d) => with_unique(prev, d),
            _ => prev,
        }
    }
}

/// `s` extended with the branch destinations of its first `k` positions.
pub open spec fn branch_round_from(es: Seq<Seq<Edge>>, s: Seq<usize>, k: int) -> Seq<usize>
    decreases k,
{
    if k <= 0 {
        s
    } else {
        let edges = es[s[k - 1] as int];
        vertex_branches(branch_round_from(es, s, k - 1), edges, edges.len() as int)
    }
}

/// `s` extended with the destinations of the branches of its positions,
/// given the outbound edges `es` of each vertex.
pub open spec fn branch_round(es: Seq<Seq<Edge>>, s: Seq<usize>) -> Seq<usize> {
    branch_round_from(es, s, s.len() as int)
}

/// `s` after `n` rounds of following unconditional branches. With `n` the
/// number of vertices, every vertex that a chain of branches reaches from
/// `s` is in it.
pub open spec fn branch_closure(es: Seq<Seq<Edge>>, s: Seq<usize>, n: nat) -> Seq<usize>
    decreases n,
{
    if n == 0 {
        s
    } else {
        branch_closure(es, branch_round(es, s), (n - 1) as nat)
    }
}

/// Of the first `k` positions, those that end a match (`done`) or those
/// that do not.
pub open spec fn split(verts: Seq<Vertex>, s: Seq<usize>, done: bool, k: int) -> Seq<usize>
    decreases k,
{
    if k <= 0 {
        Seq::empty()
    } else {
        let prev = split(verts, s, done, k - 1);
        if has_done(verts[s[k - 1] as int].actions@) == done {
            prev.push(s[k - 1])
        } else {
            prev
        }
    }
}

/// The threads of a fresh match: one at the start vertex.
pub open spec fn initial() -> Seq<usize> {
    seq![0usize]
}

/// One step of the matcher: the threads after the token, and the vertices
/// of the matches it completed, in order. A reset, or a gap of at least the
/// maximum gap, starts afresh; so does a token that leaves no thread alive.
pub open spec fn step(verts: Seq<Vertex>, threads: Seq<usize>, t: InfraredData, opts: Options) -> (
    Seq<usize>,
    Seq<usize>,
) {
    match t {
        InfraredData::Reset => (initial(), Seq::empty()),
        _ => {
            let reached = branch_closure(
                edge_lists(verts),
                threads_step(verts, threads, t, opts, threads.len() as int),
                verts.len(),
            );
            let done = split(verts, reached, true, reached.len() as int);
            let live = split(verts, reached, false, reached.len() as int);
            let restart = match t {
                InfraredData::Gap(d) => ends_transmission(d as nat, opts.max_gap as nat),
                _ => false,
            };
            if restart || live.len() == 0 {
                (initial(), done)
            } else {
                (live, done)
            }
        },
    }
}

/// The threads after a token stream, and the matches completed by each token.
pub open spec fn run(verts: Seq<Vertex>, threads: Seq<usize>, ts: Seq<InfraredData>, opts: Options) -> (
    Seq<usize>,
    Seq<Seq<usize>>,
)
    decreases ts.len(),
{
    if ts.len() == 0 {
        (threads, Seq::empty())
    } else {
        let (next, done) = step(verts, threads, ts[0], opts);
        let (last, rest) = run(verts, next, ts.drop_first(), opts);
        (last, seq![done] + rest)
    }
}

/// Every edge leads into the graph, and the graph has a start vertex.
pub open spec fn matchable(verts: Seq<Vertex>) -> bool {
    verts.len() > 0 && graph_closed(verts)
}

/// Threads are distinct vertices of the graph.
pub open spec fn threads_ok(verts: Seq<Vertex>, threads: Seq<usize>) -> bool {
    &&& threads.no_duplicates()
    &&& forall|i: int| 0 <= i < threads.len() ==> #[trigger] threads[i] < verts.len()
}

/// A matcher over a graph whose timed edges carry the pulse train and whose
/// unconditional branches are followed after each token; conditional
/// branches are not followed.
pub struct Matcher {
    pub threads: Vec<usize>,
}

fn admits_exec(e: &Edge, t: &InfraredData, opts: &Options) -> (r: Option<usize>)
    ensures
        match r {
            Some(d) => admits(*e, *t, *opts) && d == timed_dest(*e),
            None => !admits(*e, *t, *opts),
        },
{
    match (e, t) {
        (Edge::Flash { length, dest, .. }, InfraredData::Flash(d)) => {
            if accepts(*length, *d, opts) {
                Some(*dest)
            } else {
                None
            }
        },
        (Edge::Gap { length, dest, .. }, InfraredData::Gap(d)) => {
            if accepts(*length, *d, opts) {
                Some(*dest)
            } else {
                None
            }
        },
        _ => None,
    }
}

fn branch_once(verts: &Vec<Vertex>, s: Vec<usize>) -> (r: Vec<usize>)
    requires
        matchable(verts@),
        threads_ok(verts@, s@),
    ensures
        r@ == branch_round(edge_lists(verts@), s@),
        threads_ok(verts@, r@),
{
    let ghost s0 = s@;
    let n = s.len();
    let mut acc = s;
    let mut k: usize = 0;
    while k < n
        invariant
            matchable(verts@),
            threads_ok(verts@, s0),
            n == s0.len(),
            k <= n,
            acc@ == branch_round_from(edge_lists(verts@), s0, k as int),
            threads_ok(verts@, acc@),
            acc@.len() >= n,
            acc@.subrange(0, n as int) == s0,
        decreases n - k,
    {
        assert(acc@[k as int] == s0[k as int]) by {
            assert(acc@.subrange(0, n as int)[k as int] == acc@[k as int]);
        }
        let v = &verts[acc[k]];
        let ghost base = acc@;
        let mut j: usize = 0;
        while j < v.edges.len()
            invariant
                matchable(verts@),
                threads_ok(verts@, s0),
                k < n,
                n == s0.len(),
                *v == verts@[s0[k as int] as int],
                j <= v.edges@.len(),
                acc@ == vertex_branches(base, v.edges@, j as int),
                threads_ok(verts@, acc@),
                acc@.len() >= n,
                acc@.subrange(0, n as int) == s0,
            decreases v.edges.len() - j,
        {
            if let Edge::Branch(d) = &v.edges[j] {
                assert(edge_in_bounds(verts@[s0[k as int] as int].edges@[j as int], verts@.len()));
                let ghost before = acc@;
                add_unique(&mut acc, *d);
                assert(acc@.subrange(0, n as int) =~= before.subrange(0, n as int));
            }
            j += 1;
        }
        k += 1;
    }
    acc
}

pub(crate) fn close_branches(verts: &Vec<Vertex>, s: Vec<usize>) -> (r: Vec<usize>)
    requires
        matchable(verts@),
        threads_ok(verts@, s@),
    ensures
        r@ == branch_closure(edge_lists(verts@), s@, verts@.len()),
        threads_ok(verts@, r@),
{
    let ghost s0 = s@;
    let mut cur = s;
    let mut i: usize = 0;
    while i < verts.len()
        invariant
            matchable(verts@),
            i <= verts@.len(),
            threads_ok(verts@, cur@),
            branch_closure(edge_lists(verts@), s0, verts@.len()) == branch_closure(
                edge_lists(verts@),
                cur@,
                (verts@.len() - i) as nat,
            ),
        decreases verts.len() - i,
    {
        cur = branch_once(verts, cur);
        i += 1;
    }
    cur
}

impl Matcher {
    /// A matcher with one thread at the start vertex.
    pub fn new() -> (r: Matcher)
        ensures
            r.threads@ == initial(),
    {
        Matcher { threads: vec![0] }
    }

    /// Feeds one token; returns the vertices of the matches it completed,
    /// whose threads are retired.
    pub fn input(&mut self, verts: &Vec<Vertex>, t: InfraredData, opts: &Options) -> (r: Vec<usize>)
        requires
            matchable(verts@),
            threads_ok(verts@, old(self).threads@),
        ensures
            step(verts@, old(self).threads@, t, *opts) == (final(self).threads@, r@),
            threads_ok(verts@, final(self).threads@),
    {
        if let InfraredData::Reset = t {
            self.threads = vec![0];
            return Vec::new();
        }
        let ghost th = self.threads@;
        let mut reached: Vec<usize> = Vec::new();
        let mut k: usize = 0;
        while k < self.threads.len()
            invariant
                matchable(verts@),
                threads_ok(verts@, th),
                self.threads@ == th,
                k <= th.len(),
                reached@ == threads_step(verts@, th, t, *opts, k as int),
                threads_ok(verts@, reached@),
            decreases self.threads.len() - k,
        {
            let v = &verts[self.threads[k]];
            let ghost base = reached@;
            let mut j: usize = 0;
            while j < v.edges.len()
                invariant
                    matchable(verts@),
                    threads_ok(verts@, th),
                    k < th.len(),
                    *v == verts@[th[k as int] as int],
                    j <= v.edges@.len(),
                    reached@ == vertex_step(base, *v, t, *opts, j as int),
                    threads_ok(verts@, reached@),
                decreases v.edges.len() - j,
            {
                if let Some(d) = admits_exec(&v.edges[j], &t, opts) {
                    assert(edge_in_bounds(verts@[th[k as int] as int].edges@[j as int], verts@.len()));
                    add_unique(&mut reached, d);
                }
                j += 1;
            }
            k += 1;
        }
        let reached = close_branches(verts, reached);
        let mut done: Vec<usize> = Vec::new();
        let mut live: Vec<usize> = Vec::new();
        let mut i: usize = 0;
        while i < reached.len()
            invariant
                i <= reached@.len(),
                threads_ok(verts@, reached@),
                done@ == split(verts@, reached@, true, i as int),
                live@ == split(verts@, reached@, false, i as int),
                threads_ok(verts@, live@),
                forall|x: usize| live@.contains(x) ==> reached@.subrange(0, i as int).contains(x),
            decreases reached.len() - i,
        {
            let p = reached[i];
            let ghost old_live = live@;
            if ends_match(&verts[p].actions) {
                done.push(p);
            } else {
                proof {
                    if live@.contains(p) {
                        let w = choose|w: int|
                            0 <= w < i && #[trigger] reached@.subrange(0, i as int)[w] == p;
                        assert(reached@[w] == reached@[i as int]);
                    }
                }
                live.push(p);
            }
            assert forall|x: usize| live@.contains(x) implies reached@.subrange(
                0,
                i + 1,
            ).contains(x) by {
                if x == p {
                    assert(reached@.subrange(0, i + 1)[i as int] == p);
                } else {
                    let w = choose|w: int| 0 <= w < live@.len() && live@[w] == x;
                    assert(old_live[w] == x);
                    assert(old_live.contains(x));
                    let w2 = choose|w2: int|
                        0 <= w2 < i && #[trigger] reached@.subrange(0, i as int)[w2] == x;
                    assert(reached@.subrange(0, i + 1)[w2] == x);
                }
            }
            i += 1;
        }
        let restart = match t {
            InfraredData::Gap(d) => gap_resets(d, opts),
            _ => false,
        };
        if restart || live.len() == 0 {
            self.threads = vec![0];
        } else {
            self.threads = live;
        }
        done
    }

    /// Feeds a token stream in order; returns, for each token, the vertices
    /// of the matches it completed.
    pub fn feed(&mut self, verts: &Vec<Vertex>, ts: &Vec<InfraredData>, opts: &Options) -> (r: Vec<
        Vec<usize>,
    >)
        requires
            matchable(verts@),
            threads_ok(verts@, old(self).threads@),
        ensures
            run(verts@, old(self).threads@, ts@, *opts) == (
                final(self).threads@,
                r@.map_values(|v: Vec<usize>| v@),
            ),
            threads_ok(verts@, final(self).threads@),
    {
        let ghost start = self.threads@;
        let mut res: Vec<Vec<usize>> = Vec::new();
        let mut i: usize = 0;
        assert(ts@.subrange(0, 0) =~= Seq::<InfraredData>::empty());
        assert(res@.map_values(|v: Vec<usize>| v@) =~= Seq::<Seq<usize>>::empty());
        while i < ts.len()
            invariant
                matchable(verts@),
                threads_ok(verts@, self.threads@),
                i <= ts@.len(),
                res@.len() == i,
                run(verts@, start, ts@.subrange(0, i as int), *opts) == (
                    self.threads@,
                    res@.map_values(|v: Vec<usize>| v@),
                ),
            decreases ts.len() - i,
        {
            let ghost before = self.threads@;
            let ghost res_before = res@;
            let done = self.input(verts, ts[i], opts);
            proof {
                let one = seq![ts@[i as int]];
                lemma_run_append(verts@, start, ts@.subrange(0, i as int), one, *opts);
                assert(ts@.subrange(0, i as int) + one =~= ts@.subrange(0, i + 1));
                assert(one.drop_first() =~= Seq::<InfraredData>::empty());
                assert(one[0] == ts@[i as int]);
                assert(run(verts@, self.threads@, one.drop_first(), *opts) == (
                    self.threads@,
                    Seq::<Seq<usize>>::empty(),
                ));
                assert(seq![done@] + Seq::<Seq<usize>>::empty() =~= seq![done@]);
                assert(run(verts@, before, one, *opts) == (self.threads@, seq![done@]));
            }
            res.push(done);
            assert(res@.map_values(|v: Vec<usize>| v@) =~= res_before.map_values(
                |v: Vec<usize>| v@,
            ) + seq![res@[i as int]@]);
            i += 1;
        }
        assert(ts@.subrange(0, i as int) =~= ts@);
        res
    }
}

/// Running a stream made of two parts runs the second from where the first
/// left the threads, and reports the matches of both in order.
pub proof fn lemma_run_append(
    verts: Seq<Vertex>,
    threads: Seq<usize>,
    a: Seq<InfraredData>,
    b: Seq<InfraredData>,
    opts: Options,
)
    ensures
        run(verts, threads, a + b, opts) == (
            run(verts, run(verts, threads, a, opts).0, b, opts).0,
            run(verts, threads, a, opts).1 + run(verts, run(verts, threads, a, opts).0, b, opts).1,
        ),
    decreases a.len(),
{
    if a.len() == 0 {
        assert(a + b =~= b);
        assert(Seq::<Seq<usize>>::empty() + run(verts, threads, b, opts).1 =~= run(
            verts,
            threads,
            b,
            opts,
        ).1);
    } else {
        let next = step(verts, threads, a[0], opts).0;
        assert((a + b).drop_first() =~= a.drop_first() + b);
        assert((a + b)[0] == a[0]);
        lemma_run_append(verts, next, a.drop_first(), b, opts);
        let done = step(verts, threads, a[0], opts).1;
        let ra = run(verts, next, a.drop_first(), opts);
        let rb = run(verts, ra.0, b, opts);
        assert(seq![done] + (ra.1 + rb.1) =~= (seq![done] + ra.1) + rb.1);
    }
}

/// Feeding a fresh matcher a stream, a reset, and the same stream again
/// reports the matches of the stream twice, with none for the reset.
pub proof fn lemma_reset_replays(verts: Seq<Vertex>, s: Seq<InfraredData>, opts: Options)
    ensures
        run(verts, initial(), s + seq![InfraredData::Reset] + s, opts).1 == run(
            verts,
            initial(),
            s,
            opts,
        ).1 + seq![Seq::<usize>::empty()] + run(verts, initial(), s, opts).1,
{
    let r = seq![InfraredData::Reset];
    let first = run(verts, initial(), s, opts);
    lemma_run_append(verts, initial(), s + r, s, opts);
    lemma_run_append(verts, initial(), s, r, opts);
    let after_reset = run(verts, first.0, r, opts);
    assert(r.drop_first() =~= Seq::<InfraredData>::empty());
    assert(r.len() == 1 && r[0] == InfraredData::Reset);
    assert(step(verts, first.0, r[0], opts) == (initial(), Seq::<usize>::empty()));
    assert(run(verts, initial(), r.drop_first(), opts) == (initial(), Seq::<Seq<usize>>::empty()));
    assert(after_reset.0 == initial());
    assert(after_reset.1 =~= seq![Seq::<usize>::empty()]);
}

/// A live thread set never holds more threads than the graph has vertices.
pub proof fn lemma_thread_bound(verts: Seq<Vertex>, threads: Seq<usize>)
    requires
        threads_ok(verts, threads),
    ensures
        threads.len() <= verts.len(),
{
    let ints = threads.map_values(|x: usize| x as int);
    assert forall|i: int, j: int|
        0 <= i < ints.len() && 0 <= j < ints.len() && i != j implies ints[i] != ints[j] by {
        assert(threads[i] != threads[j]);
    }
    assert(ints.no_duplicates());
    ints.unique_seq_to_set();
    lemma_int_range(0, verts.len() as int);
    assert forall|x: int| ints.to_set().contains(x) implies set_int_range(
        0,
        verts.len() as int,
    ).contains(x) by {
        let w = choose|w: int| 0 <= w < ints.len() && ints[w] == x;
        assert(threads[w] < verts.len());
    }
    lemma_len_subset(ints.to_set(), set_int_range(0, verts.len() as int));
}

} // verus!
