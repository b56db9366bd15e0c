use vstd::prelude::*;

verus! {

/// A set of blocked cube faces, one bit per axis direction.
///
/// The bit layout is stable and suitable for persistence:
/// `X_FORW = 0x01`, `Y_FORW = 0x02`, `Z_FORW = 0x04`,
/// `X_BACK = 0x08`, `Y_BACK = 0x10`, `Z_BACK = 0x20`.
#[derive(Clone, Copy, Debug, PartialEq, Eq, Structural)]
pub struct FlowFlags {
    bits: u8,
}

impl FlowFlags {
    /// The raw bit pattern of the set.
    pub closed spec fn spec_bits(self) -> u8 {
        self.bits
    }

    /// Only the six face bits may be set.
    pub open spec fn wf(self) -> bool {
        self.spec_bits() < 0x40
    }

    /// Holds when every face of `other` is also blocked in `self`.
    pub open spec fn spec_contains(self, other: FlowFlags) -> bool {
        self.spec_bits() & other.spec_bits() == other.spec_bits()
    }

    /// Flow towards larger x is blocked.
    pub open spec fn blocks_x_forw(self) -> bool {
        self.spec_bits() & 0x01 == 0x01
    }

    /// Flow towards larger y is blocked.
    pub open spec fn blocks_y_forw(self) -> bool {
        self.spec_bits() & 0x02 == 0x02
    }

    /// Flow towards larger z is blocked.
    pub open spec fn blocks_z_forw(self) -> bool {
        self.spec_bits() & 0x04 == 0x04
    }

    /// Flow towards smaller x is blocked.
    pub open spec fn blocks_x_back(self) -> bool {
        self.spec_bits() & 0x08 == 0x08
    }

    /// Flow towards smaller y is blocked.
    pub open spec fn blocks_y_back(self) -> bool {
        self.spec_bits() & 0x10 == 0x10
    }

    /// Flow towards smaller z is blocked.
    pub open spec fn blocks_z_back(self) -> bool {
        self.spec_bits() & 0x20 == 0x20
    }

    /// The empty set: no face is blocked.
    pub fn empty() -> (r: FlowFlags)
        ensures
            r.spec_bits() == 0,
            r.wf(),
    {
        FlowFlags { bits: 0 }
    }

    /// All six faces blocked.
    pub fn all() -> (r: FlowFlags)
        ensures
            r.spec_bits() == 0x3f,
            r.wf(),
    {
        FlowFlags { bits: 0x3f }
    }

    /// Flow towards larger x is blocked.
    pub fn x_forw() -> (r: FlowFlags)
        ensures
            r.spec_bits() == 0x01,
            r.wf(),
    {
        FlowFlags { bits: 0x01 }
    }

    /// Flow towards larger y is blocked.
    pub fn y_forw() -> (r: FlowFlags)
        ensures
            r.spec_bits() == 0x02,
            r.wf(),
    {
        FlowFlags { bits: 0x02 }
    }

    /// Flow towards larger z is blocked.
    pub fn z_forw() -> (r: FlowFlags)
        ensures
            r.spec_bits() == 0x04,
            r.wf(),
    {
        FlowFlags { bits: 0x04 }
    }

    /// Flow towards smaller x is blocked.
    pub fn x_back() -> (r: FlowFlags)
        ensures
            r.spec_bits() == 0x08,
            r.wf(),
    {
        FlowFlags { bits: 0x08 }
    }

    /// Flow towards smaller y is blocked.
    pub fn y_back() -> (r: FlowFlags)
        ensures
            r.spec_bits() == 0x10,
            r.wf(),
    {
        FlowFlags { bits: 0x10 }
    }

    /// Flow towards smaller z is blocked.
    pub fn z_back() -> (r: FlowFlags)
        ensures
            r.spec_bits() == 0x20,
            r.wf(),
    {
        FlowFlags { bits: 0x20 }
    }

    /// The raw byte value of the set.
    pub fn bits(&self) -> (r: u8)
        ensures
            r == self.spec_bits(),
    {
        self.bits
    }

    /// The set whose raw byte value is `bits`; bits outside the six face
    /// bits are dropped.
    pub fn from_bits_truncate(bits: u8) -> (r: FlowFlags)
        ensures
            r.spec_bits() == bits & 0x3f,
            r.wf(),
    {
        proof {
            assert(bits & 0x3f < 0x40) by (bit_vector);
        }
        FlowFlags { bits: bits & 0x3f }
    }

    /// Returns whether every face of `other` is also blocked in `self`.
    pub fn contains(&self, other: FlowFlags) -> (r: bool)
        ensures
            r == self.spec_contains(other),
    {
        self.bits & other.bits == other.bits
    }

    /// The union of two sets of blocked faces.
    pub fn union(self, other: FlowFlags) -> (r: FlowFlags)
        ensures
            r.spec_bits() == self.spec_bits() | other.spec_bits(),
            self.wf() && other.wf() ==> r.wf(),
            r.spec_contains(self),
            r.spec_contains(other),
    {
        let bits = self.bits | other.bits;
        proof {
            let a = self.bits;
            let b = other.bits;
            assert(a < 0x40 && b < 0x40 ==> (a | b) < 0x40) by (bit_vector);
            assert((a | b) & a == a) by (bit_vector);
            assert((a | b) & b == b) by (bit_vector);
        }
        FlowFlags { bits }
    }

    /// The set `self` with every face of `other` unblocked.
    pub fn remove(self, other: FlowFlags) -> (r: FlowFlags)
        ensures
            r.spec_bits() == self.spec_bits() & !other.spec_bits(),
            self.wf() ==> r.wf(),
            !r.spec_contains(other) || other.spec_bits() == 0,
    {
        let bits = self.bits & !other.bits;
        proof {
            let a = self.bits;
            let b = other.bits;
            assert(a < 0x40 ==> (a & !b) < 0x40) by (bit_vector);
            assert(((a & !b) & b == b) ==> b == 0) by (bit_vector);
        }
        FlowFlags { bits }
    }
}

/// The byte layout is stable under persistence: reading a well-formed set's
/// byte back through the truncating constructor recovers the same set.
pub proof fn lemma_bits_round_trip(f: FlowFlags)
    requires
        f.wf(),
    ensures
        f.spec_bits() & 0x3f == f.spec_bits(),
{
    let b = f.spec_bits();
    assert(b < 0x40 ==> b & 0x3f == b) by (bit_vector);
}

impl Default for FlowFlags {
    /// The empty set: no face is blocked.
    fn default() -> (r: Self)
        ensures
            r.spec_bits() == 0,
            r.wf(),
    {
        FlowFlags::empty()
    }
}

} // verus!
