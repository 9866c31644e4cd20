//! The contrast curve: a 256-entry brightness remapping table.
//!
//! The curve is a power-law remap of brightness values. A contrast
//! exponent of exactly 1 yields the identity table, built by
//! [`ContrastCurve::identity`]. Any other exponent yields a table that
//! callers compute outside the library (the power function works on
//! floating-point values) and hand to [`ContrastCurve::from_table`],
//! which admits it only if it satisfies the curve invariant: exactly
//! 256 entries, and entry 0 equal to 0.

use vstd::prelude::*;

verus! {

/// A precomputed brightness remapping table with 256 entries, one per
/// possible 8-bit brightness value. Entry 0 is always 0: a power of
/// zero with a positive exponent is zero, and the library's policy is
/// to reject tables built from a non-positive exponent.
pub struct ContrastCurve {
    table: Vec<u8>,
}

impl ContrastCurve {
    /// The remapped value for each 8-bit brightness value.
    pub closed spec fn entries(self) -> Seq<u8> {
        self.table@
    }

    /// The curve invariant: one entry per 8-bit value, and zero maps to zero.
    pub open spec fn wf(self) -> bool {
        &&& self.entries().len() == 256
        &&& self.entries()[0] == 0
    }

    /// The identity curve: every brightness value maps to itself. This is
    /// the curve for a contrast exponent of exactly 1.
    pub fn identity() -> (c: ContrastCurve)
        ensures
            c.wf(),
            forall|v: int| 0 <= v < 256 ==> c.entries()[v] == v,
    {
        let mut table: Vec<u8> = Vec::new();
        let mut v: usize = 0;
        while v < 256
            invariant
                v <= 256,
                table@.len() == v,
                forall|i: int| 0 <= i < v ==> table@[i] == i,
            decreases 256 - v,
        {
            table.push(v as u8);
            v = v + 1;
        }
        ContrastCurve { table }
    }

    /// Wraps a caller-supplied table. Returns the curve exactly when the
    /// table satisfies the curve invariant, and `None` otherwise.
    pub fn from_table(table: Vec<u8>) -> (r: Option<ContrastCurve>)
        ensures
            r is Some <==> (table@.len() == 256 && table@[0] == 0),
            r is Some ==> r->Some_0.wf() && r->Some_0.entries() == table@,
    {
        if table.len() == 256 && table[0] == 0 {
            Some(ContrastCurve { table })
        } else {
            None
        }
    }

    /// Looks a brightness value up in the table.
    pub fn apply(&self, v: u8) -> (r: u8)
        requires
            self.wf(),
        ensures
            r == self.entries()[v as int],
    {
        self.table[v as usize]
    }
}

} // verus!
