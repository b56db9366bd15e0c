use vstd::prelude::*;
use vstd::arithmetic::div_mod::lemma_fundamental_div_mod;
use vstd::arithmetic::div_mod::lemma_fundamental_div_mod_converse;
use vstd::arithmetic::div_mod::lemma_div_pos_is_pos;
use vstd::arithmetic::div_mod::lemma_mod_bound;
use crate::coords::Coords;

verus! {

/// The flat storage position of cell `(x, y, z)` in a grid whose x extent is
/// `len_x` and whose y extent is `len_y`: x varies fastest, then y, then z.
pub open spec fn spec_index3(x: int, y: int, z: int, len_x: int, len_y: int) -> int {
    x + len_x * (y + len_y * z)
}

/// The number of cells of a grid of the given size.
pub open spec fn spec_volume(size: Coords) -> int {
    size.0 * size.1 * size.2
}

/// A cell inside the flat ordering of an in-range grid lies strictly below
/// the grid's volume.
pub proof fn lemma_index3_bounds(x: int, y: int, z: int, len_x: int, len_y: int, len_z: int)
    requires
        0 <= x < len_x,
        0 <= y < len_y,
        0 <= z < len_z,
    ensures
        0 <= y + len_y * z < len_y * len_z,
        0 <= spec_index3(x, y, z, len_x, len_y) < len_x * (len_y * len_z),
        len_x * (len_y * len_z) == len_x * len_y * len_z,
{
    assert(0 <= y + len_y * z < len_y * len_z) by (nonlinear_arith)
        requires
            0 <= y < len_y,
            0 <= z < len_z,
    ;
    assert(0 <= x + len_x * (y + len_y * z) < len_x * (len_y * len_z)) by (nonlinear_arith)
        requires
            0 <= x < len_x,
            0 <= y + len_y * z < len_y * len_z,
    ;
    assert(len_x * (len_y * len_z) == len_x * len_y * len_z) by (nonlinear_arith);
}

/// The flat ordering is invertible: dividing and taking remainders by the
/// extents recovers each coordinate of the cell.
pub proof fn lemma_index3_decompose(x: int, y: int, z: int, len_x: int, len_y: int)
    requires
        0 <= x < len_x,
        0 <= y < len_y,
        0 <= z,
    ensures
        spec_index3(x, y, z, len_x, len_y) % len_x == x,
        (spec_index3(x, y, z, len_x, len_y) / len_x) % len_y == y,
        (spec_index3(x, y, z, len_x, len_y) / len_x) / len_y == z,
{
    let i = spec_index3(x, y, z, len_x, len_y);
    assert(x + len_x * (y + len_y * z) == (y + len_y * z) * len_x + x) by (nonlinear_arith);
    lemma_fundamental_div_mod_converse(i, len_x, y + len_y * z, x);
    assert(y + len_y * z == z * len_y + y) by (nonlinear_arith);
    lemma_fundamental_div_mod_converse(y + len_y * z, len_y, z, y);
}

/// The flat ordering never aliases: two in-range cells with the same flat
/// storage position are the same cell.
pub proof fn lemma_index3_injective(
    x1: int,
    y1: int,
    z1: int,
    x2: int,
    y2: int,
    z2: int,
    len_x: int,
    len_y: int,
)
    requires
        0 <= x1 < len_x,
        0 <= y1 < len_y,
        0 <= z1,
        0 <= x2 < len_x,
        0 <= y2 < len_y,
        0 <= z2,
        spec_index3(x1, y1, z1, len_x, len_y) == spec_index3(x2, y2, z2, len_x, len_y),
    ensures
        x1 == x2,
        y1 == y2,
        z1 == z2,
{
    lemma_index3_decompose(x1, y1, z1, len_x, len_y);
    lemma_index3_decompose(x2, y2, z2, len_x, len_y);
}

/// Dividing and taking remainders by the extents turns a flat storage
/// position back into the coordinates of the cell that occupies it.
pub proof fn lemma_index3_compose(i: int, len_x: int, len_y: int)
    requires
        0 < len_x,
        0 < len_y,
        0 <= i,
    ensures
        0 <= i % len_x < len_x,
        0 <= (i / len_x) % len_y < len_y,
        0 <= (i / len_x) / len_y,
        spec_index3(i % len_x, (i / len_x) % len_y, (i / len_x) / len_y, len_x, len_y) == i,
{
    lemma_fundamental_div_mod(i, len_x);
    lemma_mod_bound(i, len_x);
    lemma_div_pos_is_pos(i, len_x);
    lemma_fundamental_div_mod(i / len_x, len_y);
    lemma_mod_bound(i / len_x, len_y);
    lemma_div_pos_is_pos(i / len_x, len_y);
}

/// The flat storage position of cell `(x, y, z)` in a grid of extents
/// `(len_x, len_y, len_z)`, with x varying fastest.
pub fn index(x: usize, y: usize, z: usize, len_x: usize, len_y: usize, len_z: usize) -> (r: usize)
    requires
        x < len_x,
        y < len_y,
        z < len_z,
        len_x * len_y * len_z <= usize::MAX,
    ensures
        r == spec_index3(x as int, y as int, z as int, len_x as int, len_y as int),
        r < len_x * len_y * len_z,
{
    proof {
        lemma_index3_bounds(x as int, y as int, z as int, len_x as int, len_y as int, len_z as int);
        assert(len_y * z <= y + len_y * z);
        assert(len_y as int * len_z as int <= len_x as int * (len_y as int * len_z as int))
            by (nonlinear_arith)
            requires
                1 <= len_x,
                0 <= len_y,
                0 <= len_z,
        ;
        assert(len_x * (y as int + len_y as int * z as int) <= spec_index3(
            x as int,
            y as int,
            z as int,
            len_x as int,
            len_y as int,
        ));
    }
    x + len_x * (y + len_y * z)
}

/// Read access to a fixed 3D extent.
pub trait Sized3D {
    /// The structural conditions under which the size is meaningful.
    spec fn well_sized(&self) -> bool;

    /// The extent on each axis.
    spec fn spec_size(&self) -> Coords;

    /// Returns the extent on each axis.
    fn size(&self) -> (r: Coords)
        requires
            self.well_sized(),
        ensures
            r == self.spec_size(),
    ;
}

/// Conversion between a cell coordinate and its flat storage position.
pub trait FlatIndex: Sized3D {
    /// Returns the flat storage position of the in-range cell `c`.
    fn to_index(&self, c: &Coords) -> (r: usize)
        requires
            self.well_sized(),
            c.0 < self.spec_size().0,
            c.1 < self.spec_size().1,
            c.2 < self.spec_size().2,
        ensures
            r == spec_index3(
                c.0 as int,
                c.1 as int,
                c.2 as int,
                self.spec_size().0 as int,
                self.spec_size().1 as int,
            ),
            r < spec_volume(self.spec_size()),
    ;

    /// Returns the in-range cell whose flat storage position is `i`.
    fn from_index(&self, i: usize) -> (r: Coords)
        requires
            self.well_sized(),
            i < spec_volume(self.spec_size()),
        ensures
            r.0 < self.spec_size().0,
            r.1 < self.spec_size().1,
            r.2 < self.spec_size().2,
            spec_index3(
                r.0 as int,
                r.1 as int,
                r.2 as int,
                self.spec_size().0 as int,
                self.spec_size().1 as int,
            ) == i,
    ;
}

/// Read access to single cells of a 3D container of `T`.
pub trait Slice3D<T>: Sized3D {
    /// The elements of the container in flat storage order.
    spec fn spec_elems(&self) -> Seq<T>;

    /// Read the cell at the in-range coordinate `c`.
    fn slice(&self, c: &Coords) -> (r: &T)
        requires
            self.well_sized(),
            c.0 < self.spec_size().0,
            c.1 < self.spec_size().1,
            c.2 < self.spec_size().2,
        ensures
            *r == self.spec_elems()[spec_index3(
                c.0 as int,
                c.1 as int,
                c.2 as int,
                self.spec_size().0 as int,
                self.spec_size().1 as int,
            )],
    ;
}

/// Write access to single cells of a 3D container of `T`.
pub trait Slice3DMut<T>: Slice3D<T> {
    /// Borrow the cell at the in-range coordinate `c` for writing; every
    /// other cell keeps its value.
    fn slice_mut(&mut self, c: &Coords) -> (r: &mut T)
        requires
            old(self).well_sized(),
            c.0 < old(self).spec_size().0,
            c.1 < old(self).spec_size().1,
            c.2 < old(self).spec_size().2,
        ensures
            *r == old(self).spec_elems()[spec_index3(
                c.0 as int,
                c.1 as int,
                c.2 as int,
                old(self).spec_size().0 as int,
                old(self).spec_size().1 as int,
            )],
            final(self).spec_elems() == old(self).spec_elems().update(
                spec_index3(
                    c.0 as int,
                    c.1 as int,
                    c.2 as int,
                    old(self).spec_size().0 as int,
                    old(self).spec_size().1 as int,
                ),
                *final(r),
            ),
            final(self).spec_size() == old(self).spec_size(),
            final(self).well_sized(),
    ;
}

/// Bulk overwrite of every element of a container.
pub trait Fillable<T: Clone> {
    /// The elements of the container, in storage order.
    spec fn elems(&self) -> Seq<T>;

    /// Overwrites every element with a clone of `value`.
    fn fill(&mut self, value: T)
        ensures
            final(self).elems().len() == old(self).elems().len(),
            forall|i: int|
                0 <= i < final(self).elems().len() ==> cloned::<T>(
                    value,
                    #[trigger] final(self).elems()[i],
                ),
    ;
}

} // verus!
