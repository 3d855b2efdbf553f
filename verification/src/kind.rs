//! Points and vectors, told apart by the fourth coordinate of a homogeneous
//! tuple, and the rules that say which operations on them are legal.
//!
//! The coordinates themselves are inexact numbers and live with the caller.
//! What is decided here needs only the kind of each operand.

use vstd::prelude::*;

verus! {

/// What the fourth coordinate `w` of a tuple says the tuple is.
#[derive(Clone, Copy, Debug, PartialEq, Eq, Structural)]
pub enum Kind {
    /// A position: `w` is exactly 1.
    Point,
    /// A displacement: `w` is exactly 0.
    Vector,
    /// Anything else: `w` is neither 0 nor 1, as in a tuple built with a
    /// free fourth coordinate.
    Raw,
}

/// An operation that the kinds of its operands rule out.
#[derive(Clone, Copy, Debug, PartialEq, Eq, Structural)]
pub enum IllegalOperation {
    /// point + point
    AddPoints,
    /// vector - point
    SubtractPointFromVector,
    /// scalar multiplication of anything but a vector
    MultiplyNonVector,
    /// scalar division of anything but a vector
    DivideNonVector,
    /// magnitude, or its square, of anything but a vector
    MagnitudeOfNonVector,
    /// normalization of anything but a vector
    NormalizeNonVector,
    /// dot product with an operand that is not a vector
    DotOfNonVectors,
    /// cross product with an operand that is not a vector
    CrossOfNonVectors,
}

/// Bit 63 of an IEEE 754 binary64 pattern: the sign.
pub open spec fn sign_field(bits: u64) -> u64 {
    bits >> 63
}

/// Bits 52 to 62 of an IEEE 754 binary64 pattern: the biased exponent.
pub open spec fn exponent_field(bits: u64) -> u64 {
    (bits >> 52) & 0x7ff
}

/// Bits 0 to 51 of an IEEE 754 binary64 pattern: the fraction.
pub open spec fn fraction_field(bits: u64) -> u64 {
    bits & 0xf_ffff_ffff_ffff
}

/// The pattern encodes the number one: positive, exponent at the bias,
/// nothing in the fraction.
pub open spec fn encodes_one(bits: u64) -> bool {
    sign_field(bits) == 0 && exponent_field(bits) == 1023 && fraction_field(bits) == 0
}

/// The pattern encodes zero, of either sign.
pub open spec fn encodes_zero(bits: u64) -> bool {
    exponent_field(bits) == 0 && fraction_field(bits) == 0
}

/// The fourth coordinate that a sum or difference of two tuples would have,
/// where both kinds fix theirs.
pub open spec fn combined_weight(lhs: Option<int>, rhs: Option<int>, sign: int) -> Option<int> {
    match (lhs, rhs) {
        (Some(l), Some(r)) => Some(l + sign * r),
        _ => None,
    }
}

impl Kind {
    /// The fourth coordinate, where the kind fixes it.
    pub open spec fn weight(self) -> Option<int> {
        match self {
            Kind::Point => Some(1),
            Kind::Vector => Some(0),
            Kind::Raw => None,
        }
    }

    /// The kind of a tuple whose fourth coordinate is the integer `w`.
    pub open spec fn of_weight(w: int) -> Kind {
        if w == 1 {
            Kind::Point
        } else if w == 0 {
            Kind::Vector
        } else {
            Kind::Raw
        }
    }

    /// The kind of a tuple whose fourth coordinate has the given binary64
    /// pattern.
    pub open spec fn of_bits(bits: u64) -> Kind {
        if encodes_one(bits) {
            Kind::Point
        } else if encodes_zero(bits) {
            Kind::Vector
        } else {
            Kind::Raw
        }
    }

    /// What `add` returns. Where both kinds fix the fourth coordinate, the
    /// sum is refused exactly when its fourth coordinate would be 2, and has
    /// the kind of that coordinate otherwise. Where an operand is raw the sum
    /// is allowed and no kind is claimed for it: it is whatever the sum of
    /// the two coordinates turns out to be.
    pub open spec fn sum(self, rhs: Kind) -> Result<Option<Kind>, IllegalOperation> {
        match combined_weight(self.weight(), rhs.weight(), 1) {
            Some(w) => if w == 2 {
                Err(IllegalOperation::AddPoints)
            } else {
                Ok(Some(Kind::of_weight(w)))
            },
            None => Ok(None),
        }
    }

    /// What `sub` returns. Where both kinds fix the fourth coordinate, the
    /// difference is refused exactly when its fourth coordinate would be -1,
    /// and has the kind of that coordinate otherwise. Where an operand is raw
    /// the difference is allowed and no kind is claimed for it.
    pub open spec fn difference(self, rhs: Kind) -> Result<Option<Kind>, IllegalOperation> {
        match combined_weight(self.weight(), rhs.weight(), -1) {
            Some(w) => if w == -1 {
                Err(IllegalOperation::SubtractPointFromVector)
            } else {
                Ok(Some(Kind::of_weight(w)))
            },
            None => Ok(None),
        }
    }

    /// Classifies a fourth coordinate given as its IEEE 754 binary64 bit
    /// pattern: a point where it compares equal to 1, a vector where it
    /// compares equal to 0 (either sign), raw otherwise.
    pub fn from_bits(bits: u64) -> (kind: Kind)
        ensures
            kind == Kind::of_bits(bits),
    {
        assert(encodes_one(bits) <==> bits == 0x3ff0_0000_0000_0000) by {
            assert(((bits >> 63) == 0 && ((bits >> 52) & 0x7ff) == 1023 && (bits
                & 0xf_ffff_ffff_ffff) == 0) <==> bits == 0x3ff0_0000_0000_0000u64) by (bit_vector);
        }
        assert(encodes_zero(bits) <==> bits & 0x7fff_ffff_ffff_ffff == 0) by {
            assert((((bits >> 52) & 0x7ff) == 0 && (bits & 0xf_ffff_ffff_ffff) == 0) <==> bits
                & 0x7fff_ffff_ffff_ffffu64 == 0) by (bit_vector);
        }
        if bits == 0x3ff0_0000_0000_0000 {
            Kind::Point
        } else if bits & 0x7fff_ffff_ffff_ffff == 0 {
            Kind::Vector
        } else {
            Kind::Raw
        }
    }

    /// Whether this is the kind of a point.
    pub fn is_point(self) -> (yes: bool)
        ensures
            yes == (self == Kind::Point),
    {
        match self {
            Kind::Point => true,
            _ => false,
        }
    }

    /// Whether this is the kind of a vector.
    pub fn is_vector(self) -> (yes: bool)
        ensures
            yes == (self == Kind::Vector),
    {
        match self {
            Kind::Vector => true,
            _ => false,
        }
    }

    /// Whether `self + rhs` is legal, and the kind of the sum where the
    /// operands' kinds decide it. Two points cannot be added; every other
    /// pair can. With a raw operand the answer is `Ok(None)`: the sum is
    /// allowed, and what it is has to be read off its fourth coordinate.
    pub fn add(self, rhs: Kind) -> (result: Result<Option<Kind>, IllegalOperation>)
        ensures
            result == self.sum(rhs),
    {
        match (self, rhs) {
            (Kind::Point, Kind::Point) => Err(IllegalOperation::AddPoints),
            (Kind::Point, Kind::Vector) => Ok(Some(Kind::Point)),
            (Kind::Vector, Kind::Point) => Ok(Some(Kind::Point)),
            (Kind::Vector, Kind::Vector) => Ok(Some(Kind::Vector)),
            _ => Ok(None),
        }
    }

    /// Whether `self - rhs` is legal, and the kind of the difference where
    /// the operands' kinds decide it. A point cannot be taken from a vector;
    /// every other pair can be subtracted. With a raw operand the answer is
    /// `Ok(None)`: the difference is allowed, and what it is has to be read
    /// off its fourth coordinate.
    pub fn sub(self, rhs: Kind) -> (result: Result<Option<Kind>, IllegalOperation>)
        ensures
            result == self.difference(rhs),
    {
        match (self, rhs) {
            (Kind::Vector, Kind::Point) => Err(IllegalOperation::SubtractPointFromVector),
            (Kind::Point, Kind::Point) => Ok(Some(Kind::Vector)),
            (Kind::Point, Kind::Vector) => Ok(Some(Kind::Point)),
            (Kind::Vector, Kind::Vector) => Ok(Some(Kind::Vector)),
            _ => Ok(None),
        }
    }

    /// The kind of `-self`: negation leaves the fourth coordinate alone, so
    /// a point stays a point and a vector a vector.
    pub fn neg(self) -> (kind: Kind)
        ensures
            kind == self,
    {
        self
    }

    /// What an operation that is defined on vectors alone returns for an
    /// operand of this kind: `refusal` unless the operand is a vector.
    pub open spec fn vector_only(self, refusal: IllegalOperation) -> Result<(), IllegalOperation> {
        if self == Kind::Vector {
            Ok(())
        } else {
            Err(refusal)
        }
    }

    /// What an operation that is defined on pairs of vectors alone returns:
    /// `refusal` unless both operands are vectors.
    pub open spec fn vectors_only(self, rhs: Kind, refusal: IllegalOperation) -> Result<
        (),
        IllegalOperation,
    > {
        if self == Kind::Vector && rhs == Kind::Vector {
            Ok(())
        } else {
            Err(refusal)
        }
    }

    /// Whether a tuple of this kind may be multiplied by a scalar: only a
    /// vector scales.
    pub fn mul(self) -> (result: Result<(), IllegalOperation>)
        ensures
            result == self.vector_only(IllegalOperation::MultiplyNonVector),
    {
        match self {
            Kind::Vector => Ok(()),
            _ => Err(IllegalOperation::MultiplyNonVector),
        }
    }

    /// Whether a tuple of this kind may be divided by a scalar: only a
    /// vector scales.
    pub fn div(self) -> (result: Result<(), IllegalOperation>)
        ensures
            result == self.vector_only(IllegalOperation::DivideNonVector),
    {
        match self {
            Kind::Vector => Ok(()),
            _ => Err(IllegalOperation::DivideNonVector),
        }
    }

    /// Whether a tuple of this kind has a magnitude: only a vector has a
    /// length.
    pub fn magnitude(self) -> (result: Result<(), IllegalOperation>)
        ensures
            result == self.vector_only(IllegalOperation::MagnitudeOfNonVector),
    {
        self.magnitude_squared()
    }

    /// Whether a tuple of this kind has a squared magnitude; as for
    /// `magnitude`.
    pub fn magnitude_squared(self) -> (result: Result<(), IllegalOperation>)
        ensures
            result == self.vector_only(IllegalOperation::MagnitudeOfNonVector),
    {
        match self {
            Kind::Vector => Ok(()),
            _ => Err(IllegalOperation::MagnitudeOfNonVector),
        }
    }

    /// Whether a tuple of this kind may be normalized: only a vector has a
    /// direction. A vector of length zero is not refused here; dividing it
    /// by its length gives coordinates that are not numbers, and guarding
    /// against that is the caller's business.
    pub fn normalize(self) -> (result: Result<(), IllegalOperation>)
        ensures
            result == self.vector_only(IllegalOperation::NormalizeNonVector),
    {
        match self {
            Kind::Vector => Ok(()),
            _ => Err(IllegalOperation::NormalizeNonVector),
        }
    }

    /// Whether the dot product of two tuples of these kinds is defined: both
    /// must be vectors.
    pub fn dot(self, rhs: Kind) -> (result: Result<(), IllegalOperation>)
        ensures
            result == self.vectors_only(rhs, IllegalOperation::DotOfNonVectors),
    {
        match (self, rhs) {
            (Kind::Vector, Kind::Vector) => Ok(()),
            _ => Err(IllegalOperation::DotOfNonVectors),
        }
    }

    /// The kind of the cross product of two tuples of these kinds: a vector,
    /// and defined only where both operands are vectors.
    pub fn cross(self, rhs: Kind) -> (result: Result<Kind, IllegalOperation>)
        ensures
            result == match self.vectors_only(rhs, IllegalOperation::CrossOfNonVectors) {
                Ok(_) => Ok::<Kind, IllegalOperation>(Kind::Vector),
                Err(refusal) => Err::<Kind, IllegalOperation>(refusal),
            },
    {
        match (self, rhs) {
            (Kind::Vector, Kind::Vector) => Ok(Kind::Vector),
            _ => Err(IllegalOperation::CrossOfNonVectors),
        }
    }
}

impl IllegalOperation {
    /// The sentence that `message` returns.
    pub open spec fn sentence(self) -> Seq<char> {
        match self {
            IllegalOperation::AddPoints => "Cannot add two points."@,
            IllegalOperation::SubtractPointFromVector => "Cannot subtract a point from a vector."@,
            IllegalOperation::MultiplyNonVector => "Can only use the '*' operator with vectors, not points."@,
            IllegalOperation::DivideNonVector => "Can only use the '/' operator with vectors, not points."@,
            IllegalOperation::MagnitudeOfNonVector => "Can only compute the magnitude for vectors."@,
            IllegalOperation::NormalizeNonVector => "Can only normalize vectors."@,
            IllegalOperation::DotOfNonVectors => "Can only compute the dot products for two vectors."@,
            IllegalOperation::CrossOfNonVectors => "Cross product can only be calculated for two vectors."@,
        }
    }

    /// What went wrong, in words, for a report to a person.
    pub fn message(self) -> (text: &'static str)
        ensures
            text@ == self.sentence(),
    {
        match self {
            IllegalOperation::AddPoints => "Cannot add two points.",
            IllegalOperation::SubtractPointFromVector => "Cannot subtract a point from a vector.",
            IllegalOperation::MultiplyNonVector => "Can only use the '*' operator with vectors, not points.",
            IllegalOperation::DivideNonVector => "Can only use the '/' operator with vectors, not points.",
            IllegalOperation::MagnitudeOfNonVector => "Can only compute the magnitude for vectors.",
            IllegalOperation::NormalizeNonVector => "Can only normalize vectors.",
            IllegalOperation::DotOfNonVectors => "Can only compute the dot products for two vectors.",
            IllegalOperation::CrossOfNonVectors => "Cross product can only be calculated for two vectors.",
        }
    }
}

/// A point plus a point is refused, while a point plus a vector is a point
/// and a vector plus a vector a vector, whichever operand comes first; a
/// point minus a point is a vector, a point minus a vector a point, a vector
/// minus a vector a vector, and a vector minus a point is refused.
pub proof fn lemma_point_vector_arithmetic()
    ensures
        Kind::Point.sum(Kind::Point) == Err::<Option<Kind>, IllegalOperation>(
            IllegalOperation::AddPoints,
        ),
        Kind::Point.sum(Kind::Vector) == Ok::<Option<Kind>, IllegalOperation>(Some(Kind::Point)),
        Kind::Vector.sum(Kind::Point) == Ok::<Option<Kind>, IllegalOperation>(Some(Kind::Point)),
        Kind::Vector.sum(Kind::Vector) == Ok::<Option<Kind>, IllegalOperation>(Some(Kind::Vector)),
        Kind::Point.difference(Kind::Point) == Ok::<Option<Kind>, IllegalOperation>(
            Some(Kind::Vector),
        ),
        Kind::Point.difference(Kind::Vector) == Ok::<Option<Kind>, IllegalOperation>(
            Some(Kind::Point),
        ),
        Kind::Vector.difference(Kind::Vector) == Ok::<Option<Kind>, IllegalOperation>(
            Some(Kind::Vector),
        ),
        Kind::Vector.difference(Kind::Point) == Err::<Option<Kind>, IllegalOperation>(
            IllegalOperation::SubtractPointFromVector,
        ),
{
}

} // verus!
