use vstd::prelude::*;
use crate::coords::Coords;
use crate::indexing::lemma_index3_compose;
use crate::indexing::lemma_index3_decompose;
use crate::indexing::spec_index3;

verus! {

/// The number of cells of the half-open box `[first, size)`.
pub open spec fn spec_range_len(first: Coords, size: Coords) -> int {
    (size.0 - first.0) * ((size.1 - first.1) * (size.2 - first.2))
}

/// Holds when `c` is the cell enumerated at position `i` of the walk of the
/// half-open box `[first, size)` in x-fastest, then y, then z order.
pub open spec fn spec_range_item(first: Coords, size: Coords, c: Coords, i: int) -> bool {
    let ex = size.0 - first.0;
    let ey = size.1 - first.1;
    &&& c.0 == first.0 + (i % ex)
    &&& c.1 == first.1 + ((i / ex) % ey)
    &&& c.2 == first.2 + ((i / ex) / ey)
}

/// The walk of a full grid visits cells exactly in flat storage order: the
/// cell at position `i` of `iterate(size)` is in range and its flat storage
/// position is `i` itself.
pub proof fn lemma_iterate_order_is_storage_order(size: Coords, c: Coords, i: int)
    requires
        0 <= i < spec_range_len(Coords(0, 0, 0), size),
        spec_range_item(Coords(0, 0, 0), size, c, i),
    ensures
        c.0 < size.0,
        c.1 < size.1,
        c.2 < size.2,
        spec_index3(c.0 as int, c.1 as int, c.2 as int, size.0 as int, size.1 as int) == i,
{
    let ex = size.0 as int;
    let ey = size.1 as int;
    let ez = size.2 as int;
    assert(0 < ex && 0 < ey && 0 < ez) by (nonlinear_arith)
        requires
            0 <= i < ex * (ey * ez),
            0 <= ex,
            0 <= ey,
            0 <= ez,
    ;
    lemma_index3_compose(i, ex, ey);
    assert((i / ex) / ey < ez) by (nonlinear_arith)
        requires
            0 < ex,
            0 < ey,
            0 < ez,
            i < ex * (ey * ez),
            0 <= i % ex < ex,
            0 <= (i / ex) % ey < ey,
            0 <= (i / ex) / ey,
            spec_index3(i % ex, (i / ex) % ey, (i / ex) / ey, ex, ey) == i,
    ;
}

/// Every cell `(x, y, z)` with `0 <= x < size.0`, `0 <= y < size.1`,
/// `0 <= z < size.2`, in x-fastest, then y, then z order.
pub fn iterate(size: Coords) -> (r: Vec<Coords>)
    ensures
        r@.len() == spec_range_len(Coords(0, 0, 0), size),
        forall|i: int|
            0 <= i < r@.len() ==> spec_range_item(Coords(0, 0, 0), size, #[trigger] r@[i], i),
{
    iterate_range(Coords(0, 0, 0), size)
}

/// Every cell of the half-open box `[first, size)`, in x-fastest, then y,
/// then z order.
pub fn iterate_range(first: Coords, size: Coords) -> (r: Vec<Coords>)
    requires
        first.0 <= size.0,
        first.1 <= size.1,
        first.2 <= size.2,
    ensures
        r@.len() == spec_range_len(first, size),
        forall|i: int| 0 <= i < r@.len() ==> spec_range_item(first, size, #[trigger] r@[i], i),
{
    let ghost ex = size.0 - first.0;
    let ghost ey = size.1 - first.1;
    let ghost ez = size.2 - first.2;
    let mut out: Vec<Coords> = Vec::new();
    let mut z = first.2;
    while z < size.2
        invariant
            first.0 <= size.0,
            first.1 <= size.1,
            first.2 <= z <= size.2,
            ex == size.0 - first.0,
            ey == size.1 - first.1,
            out@.len() == (z - first.2) * (ex * ey),
            forall|i: int|
                0 <= i < out@.len() ==> spec_range_item(first, size, #[trigger] out@[i], i),
        decreases size.2 - z,
    {
        let mut y = first.1;
        while y < size.1
            invariant
                first.0 <= size.0,
                first.1 <= y <= size.1,
                first.2 <= z < size.2,
                ex == size.0 - first.0,
                ey == size.1 - first.1,
                out@.len() == (z - first.2) * (ex * ey) + (y - first.1) * ex,
                forall|i: int|
                    0 <= i < out@.len() ==> spec_range_item(first, size, #[trigger] out@[i], i),
            decreases size.1 - y,
        {
            let mut x = first.0;
            while x < size.0
                invariant
                    first.0 <= x <= size.0,
                    first.1 <= y < size.1,
                    first.2 <= z < size.2,
                    ex == size.0 - first.0,
                    ey == size.1 - first.1,
                    out@.len() == (z - first.2) * (ex * ey) + (y - first.1) * ex + (x - first.0),
                    forall|i: int|
                        0 <= i < out@.len() ==> spec_range_item(first, size, #[trigger] out@[i], i),
                decreases size.0 - x,
            {
                proof {
                    let a = x - first.0;
                    let b = y - first.1;
                    let c = z - first.2;
                    assert(c * (ex * ey) + b * ex + a == spec_index3(a, b, c, ex, ey))
                        by (nonlinear_arith);
                    lemma_index3_decompose(a, b, c, ex, ey);
                }
                out.push(Coords(x, y, z));
                x = x + 1;
            }
            proof {
                let b = y - first.1;
                let c = z - first.2;
                assert(c * (ex * ey) + b * ex + ex == c * (ex * ey) + (b + 1) * ex)
                    by (nonlinear_arith);
            }
            y = y + 1;
        }
        proof {
            let c = z - first.2;
            assert(c * (ex * ey) + ey * ex == (c + 1) * (ex * ey)) by (nonlinear_arith);
        }
        z = z + 1;
    }
    proof {
        assert(ez * (ex * ey) == ex * (ey * ez)) by (nonlinear_arith);
    }
    out
}

} // verus!
