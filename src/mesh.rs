use vstd::prelude::*;

verus! {

/// One triangle, as three indices into the vertex buffer.
pub type TriIndexes = [u32; 3];

/// Index of the top-left vertex of bar `b` in a mesh of `n` bars: the
/// `n + 1` baseline vertices come first, then two top vertices per bar.
pub open spec fn top_left(n: nat, b: int) -> int {
    n + 1 + 2 * b
}

/// Index of the top-right vertex of bar `b`.
pub open spec fn top_right(n: nat, b: int) -> int {
    n + 2 + 2 * b
}

/// The `k`-th triangle of the mesh. Bar `b` owns triangles `2b` and `2b + 1`:
/// `(b, b + 1, top_left)` and `(b + 1, top_left, top_right)`.
pub open spec fn bar_triangle(n: nat, k: int) -> (int, int, int) {
    let b = k / 2;
    if k % 2 == 0 {
        (b, b + 1, top_left(n, b))
    } else {
        (b + 1, top_left(n, b), top_right(n, b))
    }
}

/// `t` holds the corners of `s`, in order.
pub open spec fn same_triangle(t: TriIndexes, s: (int, int, int)) -> bool {
    t[0] as int == s.0 && t[1] as int == s.1 && t[2] as int == s.2
}

/// `s` is the index buffer of a mesh of `n` bars.
pub open spec fn is_bar_index_buffer(n: nat, s: Seq<TriIndexes>) -> bool {
    &&& s.len() == 2 * n
    &&& forall|k: int| 0 <= k < s.len() ==> #[trigger] same_triangle(s[k], bar_triangle(n, k))
}

/// Builds the static index buffer of a mesh of `n` bars: two triangles per
/// bar, `2n` in all. The largest index, `3n`, must fit in a `u32`.
pub fn compute_bar_indices(n: u32) -> (r: Vec<TriIndexes>)
    requires
        3 * n <= u32::MAX,
    ensures
        is_bar_index_buffer(n as nat, r@),
{
    let mut res: Vec<TriIndexes> = Vec::new();
    let mid: u32 = n + 1;
    let mut i: u32 = 0;
    while i < n
        invariant
            i <= n,
            3 * n <= u32::MAX,
            mid == n + 1,
            res@.len() == 2 * i,
            forall|k: int| 0 <= k < res@.len() ==> #[trigger] same_triangle(res@[k], bar_triangle(n as nat, k)),
        decreases n - i,
    {
        let left: u32 = mid + i * 2;
        res.push([i, i + 1, left]);
        res.push([i + 1, left, left + 1]);
        proof {
            assert forall|k: int| 0 <= k < res@.len() implies #[trigger] same_triangle(res@[k], bar_triangle(n as nat, k)) by {
                if k >= 2 * i {
                    assert(k / 2 == i as int);
                }
            }
        }
        i = i + 1;
    }
    res
}

/// The height a vertex stands at.
#[derive(Debug, Clone, Copy, PartialEq, Eq, Structural)]
pub enum Level {
    /// The bottom edge, `y = -1`.
    Baseline,
    /// The top of bar `b`, `y = height[b] - 1`.
    Top(u32),
}

/// Where a vertex stands, in mesh units: `x = -1 + column * 2 / n` and the
/// level gives `y`. The plane is `z = 0`.
#[derive(Debug, Clone, Copy, PartialEq, Eq, Structural)]
pub struct VertexSlot {
    pub column: u32,
    pub level: Level,
}

/// Column of vertex `v` in a mesh of `n` bars. Baseline vertex `v` stands at
/// column `v`; top vertex `t` (counted from the first top vertex) stands at
/// column `(t + 1) / 2`, so a bar's top pair spans its two baseline columns.
pub open spec fn column_of(n: nat, v: int) -> int {
    if v <= n {
        v
    } else {
        (v - (n + 1) + 1) / 2
    }
}

/// Level of vertex `v`: baseline, or the top of bar `t / 2`.
pub open spec fn level_of(n: nat, v: int) -> Level {
    if v <= n {
        Level::Baseline
    } else {
        Level::Top(((v - (n + 1)) / 2) as u32)
    }
}

/// `s` is the vertex layout of a mesh of `n` bars.
pub open spec fn is_bar_vertex_layout(n: nat, s: Seq<VertexSlot>) -> bool {
    &&& s.len() == 3 * n + 1
    &&& forall|v: int|
        0 <= v < s.len() ==> #[trigger] s[v] == (VertexSlot {
            column: column_of(n, v) as u32,
            level: level_of(n, v),
        })
}

/// Lays out the `3n + 1` vertices of a mesh of `n` bars: `n + 1` baseline
/// vertices from left to right, then the left and right top vertex of each
/// bar. Neighbouring bars share no top vertex, so each has its own height.
pub fn bar_vertex_layout(n: u32) -> (r: Vec<VertexSlot>)
    requires
        3 * n + 1 <= u32::MAX,
    ensures
        is_bar_vertex_layout(n as nat, r@),
{
    let mut res: Vec<VertexSlot> = Vec::new();
    let mut c: u32 = 0;
    while c <= n
        invariant
            c <= n + 1,
            3 * n + 1 <= u32::MAX,
            res@.len() == c,
            forall|v: int|
                0 <= v < res@.len() ==> #[trigger] res@[v] == (VertexSlot {
                    column: column_of(n as nat, v) as u32,
                    level: level_of(n as nat, v),
                }),
        decreases n + 1 - c,
    {
        res.push(VertexSlot { column: c, level: Level::Baseline });
        c = c + 1;
    }
    let mut b: u32 = 0;
    while b < n
        invariant
            b <= n,
            3 * n + 1 <= u32::MAX,
            res@.len() == n + 1 + 2 * b,
            forall|v: int|
                0 <= v < res@.len() ==> #[trigger] res@[v] == (VertexSlot {
                    column: column_of(n as nat, v) as u32,
                    level: level_of(n as nat, v),
                }),
        decreases n - b,
    {
        res.push(VertexSlot { column: b, level: Level::Top(b) });
        res.push(VertexSlot { column: b + 1, level: Level::Top(b) });
        proof {
            assert forall|v: int|
                0 <= v < res@.len() implies #[trigger] res@[v] == (VertexSlot {
                    column: column_of(n as nat, v) as u32,
                    level: level_of(n as nat, v),
                }) by {
                if v >= n + 1 + 2 * b {
                    let t = v - (n + 1);
                    assert(t / 2 == b as int);
                    assert((t + 1) / 2 == b + (t - 2 * b));
                }
            }
        }
        b = b + 1;
    }
    res
}

/// Topology never changes: any two index buffers of a mesh of `n` bars, such
/// as those of two frames, are equal.
pub proof fn lemma_index_buffer_unique(n: nat, a: Seq<TriIndexes>, b: Seq<TriIndexes>)
    requires
        is_bar_index_buffer(n, a),
        is_bar_index_buffer(n, b),
    ensures
        a == b,
{
    assert forall|k: int| 0 <= k < a.len() implies a[k] == b[k] by {
        assert(same_triangle(a[k], bar_triangle(n, k)));
        assert(same_triangle(b[k], bar_triangle(n, k)));
        assert(a[k]@ =~= b[k]@);
    }
    assert(a =~= b);
}

/// `v` is a vertex of bar `b`'s quad: a baseline vertex at one of the bar's
/// two columns, or a top vertex of bar `b` itself.
pub open spec fn on_bar_quad(n: nat, b: int, v: int) -> bool {
    &&& 0 <= v < 3 * n + 1
    &&& b <= column_of(n, v) <= b + 1
    &&& (level_of(n, v) == Level::Baseline || level_of(n, v) == Level::Top(b as u32))
}

/// Each triangle of the index buffer refers only to vertices of the layout,
/// and only to vertices of the quad of the bar that owns it: bar `b` is drawn
/// between baseline columns `b` and `b + 1` and at its own height alone.
pub proof fn lemma_triangles_stay_on_their_bar(n: nat, k: int)
    requires
        0 <= k < 2 * n,
        n <= u32::MAX,
    ensures
        on_bar_quad(n, k / 2, bar_triangle(n, k).0),
        on_bar_quad(n, k / 2, bar_triangle(n, k).1),
        on_bar_quad(n, k / 2, bar_triangle(n, k).2),
{
    let b = k / 2;
    assert(0 <= b < n);
    assert((top_left(n, b) - (n + 1)) / 2 == b);
    assert((top_left(n, b) - (n + 1) + 1) / 2 == b);
    assert((top_right(n, b) - (n + 1)) / 2 == b);
    assert((top_right(n, b) - (n + 1) + 1) / 2 == b + 1);
}

} // verus!
