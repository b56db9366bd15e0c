use vstd::prelude::*;
use vstd::std_specs::vec::vec_index_mut;
use crate::coords::Coords;
use crate::indexing::index;
use crate::indexing::lemma_index3_compose;
use crate::indexing::spec_index3;
use crate::indexing::spec_volume;
use crate::indexing::Fillable;
use crate::indexing::FlatIndex;
use crate::indexing::Sized3D;

verus! {

/// A value container of fixed 3D size with contiguous flat storage; the cell
/// `(x, y, z)` lives at flat position `x + X * (y + Y * z)`.
#[derive(Clone, Debug)]
pub struct Array3D<T> {
    data: Vec<T>,
    size: Coords,
}

impl<T> View for Array3D<T> {
    type V = Seq<T>;

    /// The elements in flat storage order.
    closed spec fn view(&self) -> Seq<T> {
        self.data@
    }
}

impl<T> Sized3D for Array3D<T> {
    open spec fn well_sized(&self) -> bool {
        self@.len() == spec_volume(self.spec_size())
    }

    closed spec fn spec_size(&self) -> Coords {
        self.size
    }

    fn size(&self) -> (r: Coords) {
        self.size
    }
}

impl<T> Array3D<T> {
    /// The flat position of `c` inside this array, in spec form.
    pub open spec fn spec_at(&self, c: Coords) -> int {
        spec_index3(
            c.0 as int,
            c.1 as int,
            c.2 as int,
            self.spec_size().0 as int,
            self.spec_size().1 as int,
        )
    }

    /// Holds when `c` lies inside this array on every axis.
    pub open spec fn contains_coords(&self, c: Coords) -> bool {
        c.0 < self.spec_size().0 && c.1 < self.spec_size().1 && c.2 < self.spec_size().2
    }

    /// A new array of the given size with every cell set to a clone of
    /// `value`.
    pub fn new(size: Coords, value: T) -> (r: Array3D<T>) where T: Clone
        requires
            size.0 * size.1 <= usize::MAX,
            spec_volume(size) <= usize::MAX,
        ensures
            r.well_sized(),
            r.spec_size() == size,
            forall|i: int| 0 <= i < r@.len() ==> cloned::<T>(value, #[trigger] r@[i]),
    {
        let n: usize = size.0 * size.1 * size.2;
        Array3D { data: vec![value; n], size }
    }

    /// Read the cell at `c`.
    pub fn read(&self, c: &Coords) -> (r: &T)
        requires
            self.well_sized(),
            self.contains_coords(*c),
        ensures
            *r == self@[self.spec_at(*c)],
    {
        let n = self.data.len();
        let i = index(c.0, c.1, c.2, self.size.0, self.size.1, self.size.2);
        &self.data[i]
    }

    /// Borrow the cell at `c` for writing; every other cell keeps its value.
    pub fn write(&mut self, c: &Coords) -> (r: &mut T)
        requires
            old(self).well_sized(),
            old(self).contains_coords(*c),
        ensures
            *r == old(self)@[old(self).spec_at(*c)],
            final(self)@ == old(self)@.update(old(self).spec_at(*c), *final(r)),
            final(self).spec_size() == old(self).spec_size(),
            final(self).well_sized(),
    {
        let n = self.data.len();
        let i = index(c.0, c.1, c.2, self.size.0, self.size.1, self.size.2);
        vec_index_mut(&mut self.data, i)
    }
}

/// Cells of an array never alias: writing through `write(c)` updates the
/// flat slot of `c` and no other in-range cell's slot, because two distinct
/// in-range cells always occupy distinct flat positions.
pub proof fn lemma_cells_never_alias<T>(a: Array3D<T>, c1: Coords, c2: Coords)
    requires
        a.contains_coords(c1),
        a.contains_coords(c2),
        c1 != c2,
    ensures
        a.spec_at(c1) != a.spec_at(c2),
{
    if a.spec_at(c1) == a.spec_at(c2) {
        crate::indexing::lemma_index3_injective(
            c1.0 as int,
            c1.1 as int,
            c1.2 as int,
            c2.0 as int,
            c2.1 as int,
            c2.2 as int,
            a.spec_size().0 as int,
            a.spec_size().1 as int,
        );
    }
}

impl<T> FlatIndex for Array3D<T> {
    fn to_index(&self, c: &Coords) -> (r: usize) {
        let n = self.data.len();
        index(c.0, c.1, c.2, self.size.0, self.size.1, self.size.2)
    }

    fn from_index(&self, i: usize) -> (r: Coords) {
        proof {
            let sx = self.spec_size().0 as int;
            let sy = self.spec_size().1 as int;
            let sz = self.spec_size().2 as int;
            assert(0 < sx && 0 < sy && 0 < sz) by (nonlinear_arith)
                requires
                    0 <= i < sx * sy * sz,
                    0 <= sx,
                    0 <= sy,
                    0 <= sz,
            ;
            lemma_index3_compose(i as int, sx, sy);
            assert((i as int / sx) / sy < sz) by (nonlinear_arith)
                requires
                    0 < sx,
                    0 < sy,
                    0 < sz,
                    i < sx * sy * sz,
                    0 <= i as int % sx < sx,
                    0 <= (i as int / sx) % sy < sy,
                    0 <= (i as int / sx) / sy,
                    spec_index3(
                        i as int % sx,
                        (i as int / sx) % sy,
                        (i as int / sx) / sy,
                        sx,
                        sy,
                    ) == i,
            ;
        }
        let x = i % self.size.0;
        let y = (i / self.size.0) % self.size.1;
        let z = (i / self.size.0) / self.size.1;
        Coords(x, y, z)
    }
}

impl<T> crate::indexing::Slice3D<T> for Array3D<T> {
    open spec fn spec_elems(&self) -> Seq<T> {
        self@
    }

    fn slice(&self, c: &Coords) -> (r: &T) {
        self.read(c)
    }
}

impl<T> crate::indexing::Slice3DMut<T> for Array3D<T> {
    fn slice_mut(&mut self, c: &Coords) -> (r: &mut T) {
        self.write(c)
    }
}

impl<T: Clone> Fillable<T> for Array3D<T> {
    open spec fn elems(&self) -> Seq<T> {
        self@
    }

    /// Overwrites every cell with a clone of `value`; the size is kept.
    fn fill(&mut self, value: T)
        ensures
            final(self).spec_size() == old(self).spec_size(),
    {
        let n = self.data.len();
        self.data = vec![value; n];
    }
}

} // verus!
