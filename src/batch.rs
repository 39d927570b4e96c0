use vstd::prelude::*;

verus! {

/// The `k`-th triangle of a flat vertex list: the vertices `3k`, `3k + 1` and `3k + 2`.
pub open spec fn triangle_at<T>(items: Seq<T>, k: int) -> (T, T, T) {
    (items[3 * k], items[3 * k + 1], items[3 * k + 2])
}

/// The vertices of a triangle list laid end to end.
pub open spec fn flatten<T>(ts: Seq<(T, T, T)>) -> Seq<T>
    decreases ts.len(),
{
    if ts.len() == 0 {
        Seq::empty()
    } else {
        let t = ts.last();
        flatten(ts.drop_last()) + seq![t.0, t.1, t.2]
    }
}

/// Batching loses and reorders nothing but the tail: the triangles, read
/// vertex by vertex, are the input list up to its last full triple.
pub proof fn lemma_triangles_cover_prefix<T>(items: Seq<T>, ts: Seq<(T, T, T)>)
    requires
        ts.len() == items.len() / 3,
        forall|k: int| 0 <= k < ts.len() ==> #[trigger] ts[k] == triangle_at(items, k),
    ensures
        flatten(ts) == items.subrange(0, 3 * (ts.len() as int)),
    decreases ts.len(),
{
    if ts.len() > 0 {
        let n = ts.len() - 1;
        let front = ts.drop_last();
        let shorter = items.subrange(0, items.len() - 3);
        assert(front.len() == shorter.len() / 3);
        assert forall|k: int| 0 <= k < front.len() implies #[trigger] front[k] == triangle_at(shorter, k) by {
            assert(ts[k] == triangle_at(items, k));
        }
        lemma_triangles_cover_prefix(shorter, front);
        assert(ts[n] == triangle_at(items, n));
        assert(flatten(ts) =~= items.subrange(0, 3 * (ts.len() as int)));
    }
}

/// Groups a flat vertex list into consecutive, non-overlapping triangles.
/// One or two vertices left over at the end form no triangle and are dropped.
pub fn triangles<T: Copy>(items: &Vec<T>) -> (r: Vec<(T, T, T)>)
    ensures
        r@.len() == items@.len() / 3,
        forall|k: int| 0 <= k < r@.len() ==> #[trigger] r@[k] == triangle_at(items@, k),
{
    let n = items.len();
    let mut r: Vec<(T, T, T)> = Vec::new();
    let mut i: usize = 0;
    while n - i > 2
        invariant
            n == items@.len(),
            i % 3 == 0,
            i <= n,
            i / 3 <= n / 3,
            r@.len() == i / 3,
            i + 2 >= n ==> i / 3 == n / 3,
            forall|k: int| 0 <= k < r@.len() ==> #[trigger] r@[k] == triangle_at(items@, k),
        decreases n - i,
    {
        r.push((items[i], items[i + 1], items[i + 2]));
        i = i + 3;
    }
    r
}

} // verus!
