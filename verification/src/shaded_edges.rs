use vstd::prelude::*;

verus! {

/// An undirected mesh edge, stored with its smaller vertex index first.
#[derive(Clone, Copy, PartialEq, Eq, Structural, Debug)]
pub struct Edge {
    pub a: u32,
    pub b: u32,
}

/// The pair of vertex indices as an undirected edge: the smaller first.
pub open spec fn normalized_edge(x: u32, y: u32) -> Edge {
    if x < y {
        Edge { a: x, b: y }
    } else {
        Edge { a: y, b: x }
    }
}

/// True when `e` is one of the three edges read off the face at `f`.
pub open spec fn edge_of_face(indices: Seq<u32>, f: int, e: Edge) -> bool {
    ||| e == normalized_edge(indices[f], indices[f + 1])
    ||| e == normalized_edge(indices[f], indices[f + 2])
    ||| e == normalized_edge(indices[f + 1], indices[f + 2])
}

/// The undirected edges of the first `n` faces of the triangle list.
pub open spec fn edge_set_upto(indices: Seq<u32>, n: int) -> Set<Edge> {
    Set::new(|e: Edge| exists|f: int| 0 <= f < n && edge_of_face(indices, f, e))
}

/// The undirected edges of the triangle list.
pub open spec fn edge_set(indices: Seq<u32>) -> Set<Edge> {
    edge_set_upto(indices, indices.len() as int / 3)
}

/// The six vertex indices of the two triangles closing the tube quad at
/// ring position `j` of segment `i`, on a tube with `a` ring positions.
pub open spec fn cylinder_face(a: nat, i: nat, j: nat) -> Seq<u32>
    recommends
        (i + 2) * a <= u32::MAX,
        j < a,
{
    seq![
        (i * a + j) as u32,
        (i * a + (j + 1) % a) as u32,
        ((i + 1) * a + (j + 1) % a) as u32,
        (i * a + j) as u32,
        ((i + 1) * a + (j + 1) % a) as u32,
        ((i + 1) * a + j) as u32,
    ]
}

/// The faces of the first `j` ring positions of segment `i`.
pub open spec fn cylinder_ring(a: nat, i: nat, j: nat) -> Seq<u32>
    decreases j,
{
    if j == 0 {
        Seq::empty()
    } else {
        cylinder_ring(a, i, (j - 1) as nat) + cylinder_face(a, i, (j - 1) as nat)
    }
}

/// The faces of the first `i` tube segments, each a full ring of `a`
/// positions.
pub open spec fn cylinder_segments(a: nat, i: nat) -> Seq<u32>
    decreases i,
{
    if i == 0 {
        Seq::empty()
    } else {
        cylinder_segments(a, (i - 1) as nat) + cylinder_ring(a, (i - 1) as nat, a)
    }
}

/// Produces the triangle indices of the tube drawn along each edge: for
/// every segment and every ring position, the two triangles connecting a
/// ring to the next one.
pub fn cylinder_indices(x_subdivisions: u32, angle_subdivisions: u32) -> (r: Vec<u32>)
    requires
        angle_subdivisions >= 1,
        (x_subdivisions + 1) * (angle_subdivisions as int) <= u32::MAX,
    ensures
        r@ == cylinder_segments(angle_subdivisions as nat, x_subdivisions as nat),
{
    let a = angle_subdivisions;
    let mut out: Vec<u32> = Vec::new();
    let mut i: u32 = 0;
    // the index of the first vertex of ring i, kept equal to i * a
    let mut base: u32 = 0;
    while i < x_subdivisions
        invariant
            i <= x_subdivisions,
            a == angle_subdivisions,
            a >= 1,
            (x_subdivisions + 1) * (a as int) <= u32::MAX,
            base == i * a,
            out@ == cylinder_segments(a as nat, i as nat),
        decreases x_subdivisions - i,
    {
        proof {
            assert((i + 1) * (a as int) == i * (a as int) + a && (i + 2) * (a as int) == i * (
            a as int) + 2 * a && (i + 2) * (a as int) <= (x_subdivisions + 1) * (a as int))
                by (nonlinear_arith)
                requires
                    i + 1 <= x_subdivisions,
                    a >= 1,
            ;
        }
        let next_base = base + a;
        let mut j: u32 = 0;
        let ghost ring_start = out@;
        while j < a
            invariant
                j <= a,
                a >= 1,
                base == i * a,
                next_base == base + a,
                next_base as int == (i as int + 1) * (a as int),
                next_base as int + a as int <= u32::MAX as int + 1,
                (i + 2) * (a as int) <= u32::MAX,
                out@ == ring_start + cylinder_ring(a as nat, i as nat, j as nat),
            decreases a - j,
        {
            let wrapped = (j + 1) % a;
            out.push(base + j);
            out.push(base + wrapped);
            out.push(next_base + wrapped);
            out.push(base + j);
            out.push(next_base + wrapped);
            out.push(next_base + j);
            j = j + 1;
            proof {
                assert(out@ =~= ring_start + cylinder_ring(a as nat, i as nat, j as nat));
            }
        }
        i = i + 1;
        base = next_base;
        proof {
            assert(out@ =~= cylinder_segments(a as nat, i as nat));
        }
    }
    out
}

/// The pair of vertex indices as an undirected edge.
fn normalize(x: u32, y: u32) -> (e: Edge)
    ensures
        e == normalized_edge(x, y),
{
    if x < y {
        Edge { a: x, b: y }
    } else {
        Edge { a: y, b: x }
    }
}

/// Whether the edge has been collected already.
fn edge_list_contains(edges: &Vec<Edge>, e: Edge) -> (r: bool)
    ensures
        r == edges@.contains(e),
{
    let mut i: usize = 0;
    while i < edges.len()
        invariant
            i <= edges@.len(),
            forall|j: int| 0 <= j < i ==> edges@[j] != e,
        decreases edges@.len() - i,
    {
        if edges[i] == e {
            return true;
        }
        i = i + 1;
    }
    false
}

/// Collects the edge unless it is already present.
fn add_edge(edges: &mut Vec<Edge>, e: Edge)
    ensures
        old(edges)@.contains(e) ==> final(edges)@ == old(edges)@,
        !old(edges)@.contains(e) ==> final(edges)@ == old(edges)@.push(e),
{
    if !edge_list_contains(edges, e) {
        edges.push(e);
    }
}

/// Collects each undirected edge of the triangle list once: every edge of
/// every face is in the result, nothing else is, and no edge repeats. The
/// result's length is the instance count of the tube geometry drawn for
/// the edges.
pub fn unique_edge_pairs(indices: &[u32]) -> (r: Vec<Edge>)
    ensures
        forall|k: int| 0 <= k < r@.len() ==> edge_set(indices@).contains(#[trigger] r@[k]),
        forall|e: Edge| edge_set(indices@).contains(e) ==> r@.contains(e),
        forall|k1: int, k2: int| 0 <= k1 < k2 < r@.len() ==> r@[k1] != r@[k2],
{
    let mut out: Vec<Edge> = Vec::new();
    let faces = indices.len() / 3;
    let mut f: usize = 0;
    while f < faces
        invariant
            faces == indices@.len() as int / 3,
            f <= faces,
            forall|k: int| 0 <= k < out@.len() ==> edge_set(indices@).contains(#[trigger] out@[k]),
            forall|e: Edge| edge_set_upto(indices@, f as int).contains(e) ==> out@.contains(e),
            forall|k1: int, k2: int| 0 <= k1 < k2 < out@.len() ==> out@[k1] != out@[k2],
        decreases faces - f,
    {
        proof {
            assert(f + 2 < indices@.len());
        }
        let i1 = indices[f];
        let i2 = indices[f + 1];
        let i3 = indices[f + 2];
        let e1 = normalize(i1, i2);
        let e2 = normalize(i1, i3);
        let e3 = normalize(i2, i3);
        let ghost prev = out@;
        add_edge(&mut out, e1);
        proof {
            if !prev.contains(e1) {
                assert(out@[out@.len() - 1] == e1);
            }
            assert(out@.contains(e1));
        }
        let ghost step1 = out@;
        add_edge(&mut out, e2);
        proof {
            if !step1.contains(e2) {
                assert(out@[out@.len() - 1] == e2);
            }
            assert(out@.contains(e2));
            assert forall|e: Edge| step1.contains(e) implies out@.contains(e) by {
                let k = choose|k: int| 0 <= k < step1.len() && step1[k] == e;
                assert(out@[k] == e);
            }
        }
        let ghost step2 = out@;
        add_edge(&mut out, e3);
        proof {
            if !step2.contains(e3) {
                assert(out@[out@.len() - 1] == e3);
            }
            assert(out@.contains(e3));
            assert forall|e: Edge| step2.contains(e) implies out@.contains(e) by {
                let k = choose|k: int| 0 <= k < step2.len() && step2[k] == e;
                assert(out@[k] == e);
            }
        }
        proof {
            assert(edge_of_face(indices@, f as int, e1));
            assert(edge_of_face(indices@, f as int, e2));
            assert(edge_of_face(indices@, f as int, e3));
            assert forall|e: Edge| prev.contains(e) implies out@.contains(e) by {
                let k = choose|k: int| 0 <= k < prev.len() && prev[k] == e;
                assert(step1[k] == e && step2[k] == e && out@[k] == e);
            }
            assert(out@.contains(e1) && out@.contains(e2) && out@.contains(e3));
            assert forall|e: Edge|
                edge_set_upto(indices@, f + 1).contains(e) implies out@.contains(e) by {
                let g = choose|g: int| 0 <= g < f + 1 && edge_of_face(indices@, g, e);
                if g < f {
                    assert(edge_set_upto(indices@, f as int).contains(e));
                    assert(prev.contains(e));
                } else {
                    assert(e == e1 || e == e2 || e == e3);
                }
            }
            assert forall|k: int| 0 <= k < out@.len() implies edge_set(indices@).contains(
                #[trigger] out@[k],
            ) by {
                if k < prev.len() {
                    assert(out@[k] == prev[k]);
                } else {
                    assert(out@[k] == e1 || out@[k] == e2 || out@[k] == e3);
                    assert(0 <= f < indices@.len() as int / 3 && edge_of_face(
                        indices@,
                        f as int,
                        out@[k],
                    ));
                }
            }
        }
        f = f + 1;
    }
    proof {
        assert(edge_set(indices@) =~= edge_set_upto(indices@, faces as int));
    }
    out
}

} // verus!
