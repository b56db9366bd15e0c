use vstd::prelude::*;
use vstd::std_specs::vec::vec_index_mut;
use crate::coords::Coords;
use crate::indexing::index;
use crate::indexing::lemma_index3_compose;
use crate::indexing::spec_index3;
use crate::indexing::spec_volume;
use crate::indexing::Fillable;
use crate::indexing::FlatIndex;
use crate::indexing::Sized3D;

verus! {

/// A value container whose 3D extents `(X, Y, Z)` are fixed at compile time,
/// with the same contiguous flat storage order as `Array3D`.
#[derive(Clone, Debug)]
pub struct SizedArray3D<T, const X: usize, const Y: usize, const Z: usize>(Vec<T>);

impl<T, const X: usize, const Y: usize, const Z: usize> View for SizedArray3D<T, X, Y, Z> {
    type V = Seq<T>;

    /// The elements in flat storage order.
    closed spec fn view(&self) -> Seq<T> {
        self.0@
    }
}

impl<T, const X: usize, const Y: usize, const Z: usize> Sized3D for SizedArray3D<T, X, Y, Z> {
    open spec fn well_sized(&self) -> bool {
        self@.len() == spec_volume(self.spec_size())
    }

    open spec fn spec_size(&self) -> Coords {
        Coords(X, Y, Z)
    }

    fn size(&self) -> (r: Coords) {
        Coords(X, Y, Z)
    }
}

impl<T, const X: usize, const Y: usize, const Z: usize> SizedArray3D<T, X, Y, Z> {
    /// The flat position of `c` inside this array, in spec form.
    pub open spec fn spec_at(&self, c: Coords) -> int {
        spec_index3(c.0 as int, c.1 as int, c.2 as int, X as int, Y as int)
    }

    /// Holds when `c` lies inside the extents on every axis.
    pub open spec fn contains_coords(&self, c: Coords) -> bool {
        c.0 < X && c.1 < Y && c.2 < Z
    }

    /// A new array with every cell set to a clone of `value`.
    pub fn new(value: T) -> (r: SizedArray3D<T, X, Y, Z>) where T: Clone
        requires
            X * Y <= usize::MAX,
            X * Y * Z <= usize::MAX,
        ensures
            r.well_sized(),
            forall|i: int| 0 <= i < r@.len() ==> cloned::<T>(value, #[trigger] r@[i]),
    {
        let n: usize = X * Y * Z;
        SizedArray3D(vec![value; n])
    }

    /// Read the cell at `c`.
    pub fn read(&self, c: &Coords) -> (r: &T)
        requires
            self.well_sized(),
            self.contains_coords(*c),
        ensures
            *r == self@[self.spec_at(*c)],
    {
        let n = self.0.len();
        let i = index(c.0, c.1, c.2, X, Y, Z);
        &self.0[i]
    }

    /// Borrow the cell at `c` for writing; every other cell keeps its value.
    pub fn write(&mut self, c: &Coords) -> (r: &mut T)
        requires
            old(self).well_sized(),
            old(self).contains_coords(*c),
        ensures
            *r == old(self)@[old(self).spec_at(*c)],
            final(self)@ == old(self)@.update(old(self).spec_at(*c), *final(r)),
            final(self).well_sized(),
    {
        let n = self.0.len();
        let i = index(c.0, c.1, c.2, X, Y, Z);
        vec_index_mut(&mut self.0, i)
    }
}

/// Cells of a sized array never alias: two distinct in-range cells always
/// occupy distinct flat positions.
pub proof fn lemma_sized_cells_never_alias<T, const X: usize, const Y: usize, const Z: usize>(
    a: SizedArray3D<T, X, Y, Z>,
    c1: Coords,
    c2: Coords,
)
    requires
        a.contains_coords(c1),
        a.contains_coords(c2),
        c1 != c2,
    ensures
        a.spec_at(c1) != a.spec_at(c2),
{
    if a.spec_at(c1) == a.spec_at(c2) {
        crate::indexing::lemma_index3_injective(
            c1.0 as int,
            c1.1 as int,
            c1.2 as int,
            c2.0 as int,
            c2.1 as int,
            c2.2 as int,
            X as int,
            Y as int,
        );
    }
}

impl<T, const X: usize, const Y: usize, const Z: usize> FlatIndex for SizedArray3D<T, X, Y, Z> {
    fn to_index(&self, c: &Coords) -> (r: usize) {
        let n = self.0.len();
        index(c.0, c.1, c.2, X, Y, Z)
    }

    fn from_index(&self, i: usize) -> (r: Coords) {
        proof {
            let sx = X as int;
            let sy = Y as int;
            let sz = Z as int;
            assert(0 < sx && 0 < sy && 0 < sz) by (nonlinear_arith)
                requires
                    0 <= i < sx * sy * sz,
                    0 <= sx,
                    0 <= sy,
                    0 <= sz,
            ;
            lemma_index3_compose(i as int, sx, sy);
            assert((i as int / sx) / sy < sz) by (nonlinear_arith)
                requires
                    0 < sx,
                    0 < sy,
                    0 < sz,
                    i < sx * sy * sz,
                    0 <= i as int % sx < sx,
                    0 <= (i as int / sx) % sy < sy,
                    0 <= (i as int / sx) / sy,
                    spec_index3(
                        i as int % sx,
                        (i as int / sx) % sy,
                        (i as int / sx) / sy,
                        sx,
                        sy,
                    ) == i,
            ;
        }
        let x = i % X;
        let y = (i / X) % Y;
        let z = (i / X) / Y;
        Coords(x, y, z)
    }
}

impl<T, const X: usize, const Y: usize, const Z: usize> crate::indexing::Slice3D<T>
    for SizedArray3D<T, X, Y, Z> {
    open spec fn spec_elems(&self) -> Seq<T> {
        self@
    }

    fn slice(&self, c: &Coords) -> (r: &T) {
        self.read(c)
    }
}

impl<T, const X: usize, const Y: usize, const Z: usize> crate::indexing::Slice3DMut<T>
    for SizedArray3D<T, X, Y, Z> {
    fn slice_mut(&mut self, c: &Coords) -> (r: &mut T) {
        self.write(c)
    }
}

impl<T: Clone, const X: usize, const Y: usize, const Z: usize> Fillable<T>
    for SizedArray3D<T, X, Y, Z> {
    open spec fn elems(&self) -> Seq<T> {
        self@
    }

    /// Overwrites every cell with a clone of `value`; the length is kept.
    fn fill(&mut self, value: T) {
        let n = self.0.len();
        self.0 = vec![value; n];
    }
}

} // verus!
