//! The NaN-obligation lattice. Each intermediate value carries an
//! `ExtraInfo` recording, per floating-point width, whether the value's
//! lanes are guaranteed to hold an arithmetic (canonical) NaN whenever
//! they are NaN at all, or may still hold a non-canonical NaN bit
//! pattern whose fix-up is pending. The four facets are packed into the
//! low four bits of one byte; only the constructors and the
//! union/intersection/strip combinators below can produce values.

use vstd::prelude::*;

verus! {

/// NaN-canonicalization information attached to one value.
///
/// Default (all facets clear) means "no tracked guarantee; treat
/// conservatively."
#[derive(Debug, Eq, PartialEq, Structural, Copy, Clone, Hash)]
pub struct ExtraInfo {
    state: u8,
}

/// Bit-level facts about a byte assembled from one 32-bit facet bit
/// (0, 1 or 4) and one 64-bit facet bit (0, 2 or 8).
proof fn lemma_split_bits(w: u8, h: u8)
    by (bit_vector)
    requires
        w == 0 || w == 1 || w == 4,
        h == 0 || h == 2 || h == 8,
    ensures
        ((w | h) & 1 != 0) == (w == 1),
        ((w | h) & 2 != 0) == (h == 2),
        ((w | h) & 4 != 0) == (w == 4),
        ((w | h) & 8 != 0) == (h == 8),
        w | h < 16,
{
}

/// A byte below 16 whose pending and arithmetic bits never coincide per
/// width is exactly the sum of one 32-bit facet bit and one 64-bit
/// facet bit.
proof fn lemma_reassemble_bits(s: u8)
    by (bit_vector)
    requires
        s < 16,
        !(s & 1 != 0 && s & 4 != 0),
        !(s & 2 != 0 && s & 8 != 0),
    ensures
        s == (if s & 4 != 0 { 4u8 } else if s & 1 != 0 { 1u8 } else { 0u8 })
            | (if s & 8 != 0 { 8u8 } else if s & 2 != 0 { 2u8 } else { 0u8 }),
{
}

/// Clearing the two pending bits keeps the two arithmetic bits and
/// nothing else.
proof fn lemma_strip_bits(s: u8)
    by (bit_vector)
    ensures
        (s & !(1u8 | 2u8)) & 1 == 0,
        (s & !(1u8 | 2u8)) & 2 == 0,
        ((s & !(1u8 | 2u8)) & 4 != 0) == (s & 4 != 0),
        ((s & !(1u8 | 2u8)) & 8 != 0) == (s & 8 != 0),
        s < 16 ==> (s & !(1u8 | 2u8)) < 16,
{
}

impl ExtraInfo {
    /// The 32-bit lanes may hold a non-canonical NaN whose fix-up is owed.
    pub closed spec fn pending32(self) -> bool {
        self.state & 1 != 0
    }

    /// The 64-bit lanes may hold a non-canonical NaN whose fix-up is owed.
    pub closed spec fn pending64(self) -> bool {
        self.state & 2 != 0
    }

    /// The 32-bit lanes are canonical arithmetic NaNs whenever they are NaN.
    pub closed spec fn arith32(self) -> bool {
        self.state & 4 != 0
    }

    /// The 64-bit lanes are canonical arithmetic NaNs whenever they are NaN.
    pub closed spec fn arith64(self) -> bool {
        self.state & 8 != 0
    }

    /// Every value the constructors and combinators produce is coherent:
    /// per width, a pending obligation and an arithmetic guarantee never
    /// stand together, and no bit outside the four facets is set.
    pub closed spec fn wf(self) -> bool {
        &&& self.state < 16
        &&& !(self.pending32() && self.arith32())
        &&& !(self.pending64() && self.arith64())
    }

    /// The obligation that tracks no guarantee at all.
    pub closed spec fn spec_empty() -> ExtraInfo {
        ExtraInfo { state: 0 }
    }

    /// Union of two obligations, per width: an arithmetic guarantee on
    /// either side dominates; otherwise a pending obligation on either
    /// side survives; otherwise the width is clear.
    pub closed spec fn spec_union(a: ExtraInfo, b: ExtraInfo) -> ExtraInfo {
        ExtraInfo {
            state: (if a.arith32() || b.arith32() {
                4u8
            } else if a.pending32() || b.pending32() {
                1u8
            } else {
                0u8
            }) | (if a.arith64() || b.arith64() {
                8u8
            } else if a.pending64() || b.pending64() {
                2u8
            } else {
                0u8
            }),
        }
    }

    /// Intersection of two obligations: per width, arithmetic only if
    /// both sides claim it; the left side's pending obligation survives
    /// unless the width came out arithmetic.
    pub closed spec fn spec_intersect(a: ExtraInfo, b: ExtraInfo) -> ExtraInfo {
        ExtraInfo {
            state: (if a.arith32() && b.arith32() {
                4u8
            } else if a.pending32() {
                1u8
            } else {
                0u8
            }) | (if a.arith64() && b.arith64() {
                8u8
            } else if a.pending64() {
                2u8
            } else {
                0u8
            }),
        }
    }

    /// The value must become an arithmetic 32-bit NaN, but its bit
    /// pattern may not yet be one: the canonicalization is pending.
    pub fn pending_f32_nan() -> (r: ExtraInfo)
        ensures
            r.pending32() && !r.pending64() && !r.arith32() && !r.arith64(),
            r.wf(),
    {
        proof {
            assert(1u8 & 1 != 0 && 1u8 & 2 == 0 && 1u8 & 4 == 0 && 1u8 & 8 == 0) by (bit_vector);
        }
        ExtraInfo { state: 1 }
    }

    /// The value must become an arithmetic 64-bit NaN, but its bit
    /// pattern may not yet be one: the canonicalization is pending.
    pub fn pending_f64_nan() -> (r: ExtraInfo)
        ensures
            !r.pending32() && r.pending64() && !r.arith32() && !r.arith64(),
            r.wf(),
    {
        proof {
            assert(2u8 & 1 == 0 && 2u8 & 2 != 0 && 2u8 & 4 == 0 && 2u8 & 8 == 0) by (bit_vector);
        }
        ExtraInfo { state: 2 }
    }

    /// The value either holds no 32-bit NaN or an arithmetic one; with
    /// SIMD lanes, in all four of them.
    pub fn arithmetic_f32() -> (r: ExtraInfo)
        ensures
            !r.pending32() && !r.pending64() && r.arith32() && !r.arith64(),
            r.wf(),
    {
        proof {
            assert(4u8 & 1 == 0 && 4u8 & 2 == 0 && 4u8 & 4 != 0 && 4u8 & 8 == 0) by (bit_vector);
        }
        ExtraInfo { state: 4 }
    }

    /// The value either holds no 64-bit NaN or an arithmetic one; with
    /// SIMD lanes, in both of them.
    pub fn arithmetic_f64() -> (r: ExtraInfo)
        ensures
            !r.pending32() && !r.pending64() && !r.arith32() && r.arith64(),
            r.wf(),
    {
        proof {
            assert(8u8 & 1 == 0 && 8u8 & 2 == 0 && 8u8 & 4 == 0 && 8u8 & 8 != 0) by (bit_vector);
        }
        ExtraInfo { state: 8 }
    }

    pub fn has_pending_f32_nan(&self) -> (r: bool)
        ensures
            r == self.pending32(),
    {
        self.state & 1 != 0
    }

    pub fn has_pending_f64_nan(&self) -> (r: bool)
        ensures
            r == self.pending64(),
    {
        self.state & 2 != 0
    }

    pub fn is_arithmetic_f32(&self) -> (r: bool)
        ensures
            r == self.arith32(),
    {
        self.state & 4 != 0
    }

    pub fn is_arithmetic_f64(&self) -> (r: bool)
        ensures
            r == self.arith64(),
    {
        self.state & 8 != 0
    }

    /// Discharge both pending obligations, keeping the arithmetic
    /// guarantees; called right after an actual bit-level fix-up.
    pub fn strip_pending(&self) -> (r: ExtraInfo)
        ensures
            !r.pending32() && !r.pending64(),
            r.arith32() == self.arith32(),
            r.arith64() == self.arith64(),
            self.wf() ==> r.wf(),
    {
        proof {
            lemma_strip_bits(self.state);
        }
        ExtraInfo { state: self.state & !(1u8 | 2u8) }
    }

    /// Union of two obligations, used when information from two
    /// operands or two incoming control-flow edges meets. The two
    /// pending obligations may not cross widths between the sides:
    /// that combination signals a caller error upstream.
    pub fn bitor(self, other: ExtraInfo) -> (r: ExtraInfo)
        requires
            !(self.pending32() && other.pending64()),
            !(self.pending64() && other.pending32()),
        ensures
            r == ExtraInfo::spec_union(self, other),
            r.arith32() == (self.arith32() || other.arith32()),
            r.arith64() == (self.arith64() || other.arith64()),
            r.pending32() == (!(self.arith32() || other.arith32()) && (self.pending32()
                || other.pending32())),
            r.pending64() == (!(self.arith64() || other.arith64()) && (self.pending64()
                || other.pending64())),
            r.wf(),
    {
        let w: u8 = if self.is_arithmetic_f32() || other.is_arithmetic_f32() {
            4
        } else if self.has_pending_f32_nan() || other.has_pending_f32_nan() {
            1
        } else {
            0
        };
        let h: u8 = if self.is_arithmetic_f64() || other.is_arithmetic_f64() {
            8
        } else if self.has_pending_f64_nan() || other.has_pending_f64_nan() {
            2
        } else {
            0
        };
        proof {
            lemma_split_bits(w, h);
        }
        ExtraInfo { state: w | h }
    }

    /// Union in place: replaces the left side with the union.
    pub fn bitor_assign(&mut self, other: ExtraInfo)
        requires
            !(old(self).pending32() && other.pending64()),
            !(old(self).pending64() && other.pending32()),
        ensures
            *final(self) == ExtraInfo::spec_union(*old(self), other),
            final(self).arith32() == (old(self).arith32() || other.arith32()),
            final(self).arith64() == (old(self).arith64() || other.arith64()),
            final(self).pending32() == (!(old(self).arith32() || other.arith32()) && (old(
                self,
            ).pending32() || other.pending32())),
            final(self).pending64() == (!(old(self).arith64() || other.arith64()) && (old(
                self,
            ).pending64() || other.pending64())),
            final(self).wf(),
    {
        *self = self.bitor(other);
    }

    /// Intersection of two obligations, used when one value must meet
    /// two derived requirements at once. The sides must agree on each
    /// width's pending status unless an arithmetic guarantee overrides
    /// it, and the left side may not carry pending obligations on both
    /// widths at once: those combinations signal a caller error
    /// upstream.
    pub fn bitand(self, other: ExtraInfo) -> (r: ExtraInfo)
        requires
            self.pending32() == other.pending32() || self.arith32() || other.arith32(),
            self.pending64() == other.pending64() || self.arith64() || other.arith64(),
            !(self.pending32() && self.pending64()),
        ensures
            r == ExtraInfo::spec_intersect(self, other),
            r.arith32() == (self.arith32() && other.arith32()),
            r.arith64() == (self.arith64() && other.arith64()),
            r.pending32() == (self.pending32() && !(self.arith32() && other.arith32())),
            r.pending64() == (self.pending64() && !(self.arith64() && other.arith64())),
            r.wf(),
    {
        let info = match (
            self.is_arithmetic_f32() && other.is_arithmetic_f32(),
            self.is_arithmetic_f64() && other.is_arithmetic_f64(),
        ) {
            (false, false) => ExtraInfo::default(),
            (true, false) => ExtraInfo::arithmetic_f32(),
            (false, true) => ExtraInfo::arithmetic_f64(),
            (true, true) => ExtraInfo::arithmetic_f32().bitor(ExtraInfo::arithmetic_f64()),
        };
        let info = match (self.has_pending_f32_nan(), self.has_pending_f64_nan()) {
            (false, false) => info,
            (true, false) => info.bitor(ExtraInfo::pending_f32_nan()),
            (false, true) => info.bitor(ExtraInfo::pending_f64_nan()),
            (true, true) => vstd::pervasive::unreached(),
        };
        proof {
            let w: u8 = if self.arith32() && other.arith32() {
                4u8
            } else if self.pending32() {
                1u8
            } else {
                0u8
            };
            let h: u8 = if self.arith64() && other.arith64() {
                8u8
            } else if self.pending64() {
                2u8
            } else {
                0u8
            };
            lemma_split_bits(w, h);
            lemma_reassemble_bits(w | h);
            lemma_reassemble_bits(info.state);
        }
        info
    }
}

impl Default for ExtraInfo {
    /// The empty obligation: no guarantee tracked for either width.
    fn default() -> (r: ExtraInfo)
        ensures
            r == ExtraInfo::spec_empty(),
            !r.pending32() && !r.pending64() && !r.arith32() && !r.arith64(),
            r.wf(),
    {
        proof {
            assert(0u8 & 1 == 0 && 0u8 & 2 == 0 && 0u8 & 4 == 0 && 0u8 & 8 == 0) by (bit_vector);
        }
        ExtraInfo { state: 0 }
    }
}

/// Law: union is commutative wherever it is defined, that is for the
/// pairs whose pending obligations do not cross widths between the
/// sides.
pub proof fn lemma_union_commutative(a: ExtraInfo, b: ExtraInfo)
    requires
        !(a.pending32() && b.pending64()),
        !(a.pending64() && b.pending32()),
    ensures
        ExtraInfo::spec_union(a, b) == ExtraInfo::spec_union(b, a),
{
}

/// Law: the empty obligation is the identity of union, on either side,
/// for every coherent obligation value.
pub proof fn lemma_union_empty_identity(a: ExtraInfo)
    requires
        a.wf(),
    ensures
        ExtraInfo::spec_union(a, ExtraInfo::spec_empty()) == a,
        ExtraInfo::spec_union(ExtraInfo::spec_empty(), a) == a,
{
    assert(0u8 & 1 == 0 && 0u8 & 2 == 0 && 0u8 & 4 == 0 && 0u8 & 8 == 0) by (bit_vector);
    lemma_reassemble_bits(a.state);
}

} // verus!
