use vstd::prelude::*;
use crate::coords::Coords;
use crate::flow::FlowFlags;

verus! {

/// A singleton sequence when `cond` holds, else the empty sequence.
pub open spec fn seq_when(cond: bool, c: Coords) -> Seq<Coords> {
    if cond {
        seq![c]
    } else {
        Seq::empty()
    }
}

/// The diffusion neighbors of `c` in a grid of the given size: the six
/// face-adjacent cells, kept only when they are in range and the face
/// towards them is not blocked, in the fixed order +x, -x, +y, -y, +z, -z.
pub open spec fn spec_open_neighbors(c: Coords, size: Coords, blocked: FlowFlags) -> Seq<Coords> {
    seq_when(
        !blocked.blocks_x_forw() && c.0 + 1 < size.0,
        Coords((c.0 + 1) as usize, c.1, c.2),
    ) + seq_when(!blocked.blocks_x_back() && c.0 >= 1, Coords((c.0 - 1) as usize, c.1, c.2))
        + seq_when(
        !blocked.blocks_y_forw() && c.1 + 1 < size.1,
        Coords(c.0, (c.1 + 1) as usize, c.2),
    ) + seq_when(!blocked.blocks_y_back() && c.1 >= 1, Coords(c.0, (c.1 - 1) as usize, c.2))
        + seq_when(
        !blocked.blocks_z_forw() && c.2 + 1 < size.2,
        Coords(c.0, c.1, (c.2 + 1) as usize),
    ) + seq_when(!blocked.blocks_z_back() && c.2 >= 1, Coords(c.0, c.1, (c.2 - 1) as usize))
}

/// The in-range cells across unblocked faces of `c`, in the fixed order
/// +x, -x, +y, -y, +z, -z.
///
/// A face that `blocked` holds never yields its neighbor, whatever lies
/// there: diffusion across that face is thereby impossible.
#[verifier::rlimit(60)]
pub fn open_neighbors(c: &Coords, size: &Coords, blocked: FlowFlags) -> (r: Vec<Coords>)
    requires
        c.0 < size.0,
        c.1 < size.1,
        c.2 < size.2,
    ensures
        r@ == spec_open_neighbors(*c, *size, blocked),
        r@.len() <= 6,
        forall|i: int|
            0 <= i < r@.len() ==> (#[trigger] r@[i]).0 < size.0 && r@[i].1 < size.1 && r@[i].2
                < size.2,
{
    let ghost s1 = seq_when(
        !blocked.blocks_x_forw() && c.0 + 1 < size.0,
        Coords((c.0 + 1) as usize, c.1, c.2),
    );
    let ghost s2 = s1 + seq_when(
        !blocked.blocks_x_back() && c.0 >= 1,
        Coords((c.0 - 1) as usize, c.1, c.2),
    );
    let ghost s3 = s2 + seq_when(
        !blocked.blocks_y_forw() && c.1 + 1 < size.1,
        Coords(c.0, (c.1 + 1) as usize, c.2),
    );
    let ghost s4 = s3 + seq_when(
        !blocked.blocks_y_back() && c.1 >= 1,
        Coords(c.0, (c.1 - 1) as usize, c.2),
    );
    let ghost s5 = s4 + seq_when(
        !blocked.blocks_z_forw() && c.2 + 1 < size.2,
        Coords(c.0, c.1, (c.2 + 1) as usize),
    );
    let ghost s6 = s5 + seq_when(
        !blocked.blocks_z_back() && c.2 >= 1,
        Coords(c.0, c.1, (c.2 - 1) as usize),
    );
    let mut out: Vec<Coords> = Vec::new();
    if !blocked.contains(FlowFlags::x_forw()) && c.0 + 1 < size.0 {
        out.push(Coords(c.0 + 1, c.1, c.2));
    }
    proof {
        assert(out@ =~= s1);
    }
    if !blocked.contains(FlowFlags::x_back()) && c.0 >= 1 {
        out.push(Coords(c.0 - 1, c.1, c.2));
    }
    proof {
        assert(out@ =~= s2);
    }
    if !blocked.contains(FlowFlags::y_forw()) && c.1 + 1 < size.1 {
        out.push(Coords(c.0, c.1 + 1, c.2));
    }
    proof {
        assert(out@ =~= s3);
    }
    if !blocked.contains(FlowFlags::y_back()) && c.1 >= 1 {
        out.push(Coords(c.0, c.1 - 1, c.2));
    }
    proof {
        assert(out@ =~= s4);
    }
    if !blocked.contains(FlowFlags::z_forw()) && c.2 + 1 < size.2 {
        out.push(Coords(c.0, c.1, c.2 + 1));
    }
    proof {
        assert(out@ =~= s5);
    }
    if !blocked.contains(FlowFlags::z_back()) && c.2 >= 1 {
        out.push(Coords(c.0, c.1, c.2 - 1));
    }
    proof {
        assert(out@ =~= s6);
        assert(s6 =~= spec_open_neighbors(*c, *size, blocked));
    }
    out
}

/// Corner `k` of the unit cube whose low corner is `t`, in the fixed corner
/// order A through H: bit 0 of `k` adds one along x, bit 1 along y and
/// bit 2 along z, so A is `t` itself, B adds x, C adds y, D adds x and y,
/// E adds z, and H is the opposite corner `t + (1, 1, 1)`.
pub fn cube_corner(t: &Coords, k: usize) -> (r: Coords)
    requires
        k < 8,
        t.0 + 1 <= usize::MAX,
        t.1 + 1 <= usize::MAX,
        t.2 + 1 <= usize::MAX,
    ensures
        r.0 == t.0 + (k as int % 2),
        r.1 == t.1 + ((k as int / 2) % 2),
        r.2 == t.2 + (k as int / 4),
{
    let dx = k % 2;
    let dy = (k / 2) % 2;
    let dz = k / 4;
    Coords(t.0 + dx, t.1 + dy, t.2 + dz)
}

/// Blockage containment, seen from the neighbor lists: when the face of `c`
/// towards its x-forward neighbor is blocked, that neighbor is never among
/// the diffusion neighbors of `c`; and when the neighbor blocks the
/// complementary x-backward face, `c` is never among the neighbor's
/// diffusion neighbors. No diffusion transfer crosses that face in either
/// direction. The same holds for the other five faces by symmetry of the
/// definition.
pub proof fn lemma_blocked_face_exchanges_nothing(
    c: Coords,
    size: Coords,
    c_blocked: FlowFlags,
    n: Coords,
    n_blocked: FlowFlags,
)
    requires
        c_blocked.blocks_x_forw(),
        n_blocked.blocks_x_back(),
        n.0 == c.0 + 1,
        n.1 == c.1,
        n.2 == c.2,
    ensures
        !spec_open_neighbors(c, size, c_blocked).contains(n),
        !spec_open_neighbors(n, size, n_blocked).contains(c),
{
    let cs = spec_open_neighbors(c, size, c_blocked);
    assert forall|i: int| 0 <= i < cs.len() implies cs[i] != n by {
        assert(cs[i].0 == c.0 || cs[i].0 == c.0 - 1 || cs[i].1 != c.1 || cs[i].2 != c.2);
    }
    let ns = spec_open_neighbors(n, size, n_blocked);
    assert forall|i: int| 0 <= i < ns.len() implies ns[i] != c by {
        assert(ns[i].0 == n.0 || ns[i].0 == n.0 + 1 || ns[i].1 != n.1 || ns[i].2 != n.2);
    }
}

} // verus!
