use vstd::prelude::*;

verus! {

/// An unsigned coordinate triple `(x, y, z)` naming one cell of a 3D grid.
#[derive(Clone, Copy, Debug, PartialEq, Eq, PartialOrd, Ord, Structural)]
pub struct Coords(pub usize, pub usize, pub usize);

/// A signed coordinate offset `(dx, dy, dz)` between two grid cells.
#[derive(Clone, Copy, Debug, PartialEq, Eq, PartialOrd, Ord, Structural)]
pub struct CoordsDiff(pub isize, pub isize, pub isize);

/// The offset `(1, 1, 1)`.
pub fn ones() -> (r: CoordsDiff)
    ensures
        r == CoordsDiff(1, 1, 1),
{
    CoordsDiff(1, 1, 1)
}

/// The offset `(0, 0, 0)`.
pub fn zeros() -> (r: CoordsDiff)
    ensures
        r == CoordsDiff(0, 0, 0),
{
    CoordsDiff(0, 0, 0)
}

/// The unit offset towards larger x.
pub fn x_forw() -> (r: CoordsDiff)
    ensures
        r == CoordsDiff(1, 0, 0),
{
    CoordsDiff(1, 0, 0)
}

/// The unit offset towards larger y.
pub fn y_forw() -> (r: CoordsDiff)
    ensures
        r == CoordsDiff(0, 1, 0),
{
    CoordsDiff(0, 1, 0)
}

/// The unit offset towards larger z.
pub fn z_forw() -> (r: CoordsDiff)
    ensures
        r == CoordsDiff(0, 0, 1),
{
    CoordsDiff(0, 0, 1)
}

/// The unit offset towards smaller x.
pub fn x_back() -> (r: CoordsDiff)
    ensures
        r.0 == -1,
        r.1 == 0,
        r.2 == 0,
{
    CoordsDiff(-1, 0, 0)
}

/// The unit offset towards smaller y.
pub fn y_back() -> (r: CoordsDiff)
    ensures
        r.0 == 0,
        r.1 == -1,
        r.2 == 0,
{
    CoordsDiff(0, -1, 0)
}

/// The unit offset towards smaller z.
pub fn z_back() -> (r: CoordsDiff)
    ensures
        r.0 == 0,
        r.1 == 0,
        r.2 == -1,
{
    CoordsDiff(0, 0, -1)
}

impl Coords {
    /// Holds when moving this coordinate by `d` stays representable in `usize`
    /// on every axis.
    pub open spec fn can_move(self, d: CoordsDiff) -> bool {
        &&& 0 <= self.0 + d.0 <= usize::MAX
        &&& 0 <= self.1 + d.1 <= usize::MAX
        &&& 0 <= self.2 + d.2 <= usize::MAX
    }

    /// Componentwise addition of a signed offset.
    pub fn add(self, rhs: CoordsDiff) -> (r: Coords)
        requires
            self.can_move(rhs),
        ensures
            r.0 == self.0 + rhs.0,
            r.1 == self.1 + rhs.1,
            r.2 == self.2 + rhs.2,
    {
        Coords(
            (self.0 as i128 + rhs.0 as i128) as usize,
            (self.1 as i128 + rhs.1 as i128) as usize,
            (self.2 as i128 + rhs.2 as i128) as usize,
        )
    }

    /// Componentwise subtraction of a signed offset.
    pub fn sub(self, rhs: CoordsDiff) -> (r: Coords)
        requires
            0 <= self.0 - rhs.0 <= usize::MAX,
            0 <= self.1 - rhs.1 <= usize::MAX,
            0 <= self.2 - rhs.2 <= usize::MAX,
        ensures
            r.0 == self.0 - rhs.0,
            r.1 == self.1 - rhs.1,
            r.2 == self.2 - rhs.2,
    {
        Coords(
            (self.0 as i128 - rhs.0 as i128) as usize,
            (self.1 as i128 - rhs.1 as i128) as usize,
            (self.2 as i128 - rhs.2 as i128) as usize,
        )
    }
}

impl CoordsDiff {
    /// Componentwise addition of two offsets.
    pub fn add(self, rhs: CoordsDiff) -> (r: CoordsDiff)
        requires
            isize::MIN <= self.0 + rhs.0 <= isize::MAX,
            isize::MIN <= self.1 + rhs.1 <= isize::MAX,
            isize::MIN <= self.2 + rhs.2 <= isize::MAX,
        ensures
            r.0 == self.0 + rhs.0,
            r.1 == self.1 + rhs.1,
            r.2 == self.2 + rhs.2,
    {
        CoordsDiff(self.0 + rhs.0, self.1 + rhs.1, self.2 + rhs.2)
    }

    /// Componentwise subtraction of two offsets.
    pub fn sub(self, rhs: CoordsDiff) -> (r: CoordsDiff)
        requires
            isize::MIN <= self.0 - rhs.0 <= isize::MAX,
            isize::MIN <= self.1 - rhs.1 <= isize::MAX,
            isize::MIN <= self.2 - rhs.2 <= isize::MAX,
        ensures
            r.0 == self.0 - rhs.0,
            r.1 == self.1 - rhs.1,
            r.2 == self.2 - rhs.2,
    {
        CoordsDiff(self.0 - rhs.0, self.1 - rhs.1, self.2 - rhs.2)
    }
}

impl Default for Coords {
    /// The origin `(0, 0, 0)`.
    fn default() -> (r: Self)
        ensures
            r == Coords(0, 0, 0),
    {
        Coords(0, 0, 0)
    }
}

impl From<(usize, usize, usize)> for Coords {
    fn from(c: (usize, usize, usize)) -> (r: Self) {
        Coords(c.0, c.1, c.2)
    }
}

impl vstd::std_specs::convert::FromSpecImpl<(usize, usize, usize)> for Coords {
    open spec fn obeys_from_spec() -> bool {
        true
    }

    open spec fn from_spec(c: (usize, usize, usize)) -> Self {
        Coords(c.0, c.1, c.2)
    }
}

impl From<(isize, isize, isize)> for CoordsDiff {
    fn from(c: (isize, isize, isize)) -> (r: Self) {
        CoordsDiff(c.0, c.1, c.2)
    }
}

impl vstd::std_specs::convert::FromSpecImpl<(isize, isize, isize)> for CoordsDiff {
    open spec fn obeys_from_spec() -> bool {
        true
    }

    open spec fn from_spec(c: (isize, isize, isize)) -> Self {
        CoordsDiff(c.0, c.1, c.2)
    }
}

} // verus!
