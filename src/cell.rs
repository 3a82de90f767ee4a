use vstd::prelude::*;

verus! {

/// The geometric class of a simulation cell.
#[derive(PartialEq, Eq, Structural, Clone, Copy, Debug)]
pub enum CellShape {
    /// Unbounded: no periodic boundaries.
    Infinite,
    /// Rectangular, with right angles.
    Orthorhombic,
    /// Fully general edge lengths and angles.
    Triclinic,
}

/// A comparison that the host asks of two values.
#[derive(PartialEq, Eq, Structural, Clone, Copy, Debug)]
pub enum CompareOp {
    Lt,
    Le,
    Eq,
    Ne,
    Gt,
    Ge,
}

/// The outcome of comparing shapes `a` and `b` with `op`: only equality
/// and inequality apply, any other comparison gives `None`.
pub open spec fn shape_comparison(a: CellShape, b: CellShape, op: CompareOp) -> Option<bool> {
    match op {
        CompareOp::Eq => Some(a == b),
        CompareOp::Ne => Some(a != b),
        _ => None,
    }
}

/// The name under which the host shows a shape.
pub open spec fn shape_repr(s: CellShape) -> Seq<char> {
    match s {
        CellShape::Infinite => "CellShape.Infinite"@,
        CellShape::Orthorhombic => "CellShape.Orthorhombic"@,
        CellShape::Triclinic => "CellShape.Triclinic"@,
    }
}

impl CellShape {
    pub fn triclinic() -> (r: CellShape)
        ensures
            r == CellShape::Triclinic,
    {
        CellShape::Triclinic
    }

    pub fn orthorhombic() -> (r: CellShape)
        ensures
            r == CellShape::Orthorhombic,
    {
        CellShape::Orthorhombic
    }

    pub fn infinite() -> (r: CellShape)
        ensures
            r == CellShape::Infinite,
    {
        CellShape::Infinite
    }

    /// The shape's name, as the host shows it.
    pub fn repr(&self) -> (r: String)
        ensures
            r@ == shape_repr(*self),
    {
        let name = match self {
            CellShape::Infinite => "CellShape.Infinite",
            CellShape::Orthorhombic => "CellShape.Orthorhombic",
            CellShape::Triclinic => "CellShape.Triclinic",
        };
        name.to_owned()
    }

    /// Compares with `other`; `None` where `op` does not apply to shapes.
    pub fn rich_compare(&self, other: &CellShape, op: CompareOp) -> (r: Option<bool>)
        ensures
            r == shape_comparison(*self, *other, op),
    {
        match op {
            CompareOp::Eq => Some(*self == *other),
            CompareOp::Ne => Some(*self != *other),
            _ => None,
        }
    }
}

/// Shape equality holds of a shape and itself, and of no two different
/// shapes; inequality is its negation.
pub proof fn lemma_shape_equality(a: CellShape, b: CellShape)
    ensures
        shape_comparison(a, a, CompareOp::Eq) == Some(true),
        shape_comparison(a, b, CompareOp::Eq) == Some(a == b),
        shape_comparison(a, b, CompareOp::Ne) == Some(a != b),
        a != b ==> shape_comparison(a, b, CompareOp::Eq) == Some(false),
{
}

/// The parameters a cell is built from.
pub struct CellParameters<S> {
    pub a: S,
    pub b: S,
    pub c: S,
    pub alpha: S,
    pub beta: S,
    pub gamma: S,
}

/// Fills in what the host left out: `b` and `c` default to `a`, and each
/// angle to `right`.
pub fn cell_parameters<S: Copy>(
    a: S,
    b: Option<S>,
    c: Option<S>,
    alpha: Option<S>,
    beta: Option<S>,
    gamma: Option<S>,
    right: S,
) -> (r: CellParameters<S>)
    ensures
        r.a == a,
        r.b == (match b { Some(b) => b, None => a }),
        r.c == (match c { Some(c) => c, None => a }),
        r.alpha == (match alpha { Some(x) => x, None => right }),
        r.beta == (match beta { Some(x) => x, None => right }),
        r.gamma == (match gamma { Some(x) => x, None => right }),
{
    CellParameters {
        a,
        b: b.unwrap_or(a),
        c: c.unwrap_or(a),
        alpha: alpha.unwrap_or(right),
        beta: beta.unwrap_or(right),
        gamma: gamma.unwrap_or(right),
    }
}

/// The shape of the cell built from parameters whose edge lengths are
/// zero where `zero_lengths` says so and whose angles are right where
/// `right_angles` says so.
pub open spec fn constructed_shape(zero_lengths: [bool; 3], right_angles: [bool; 3]) -> CellShape {
    if zero_lengths[0] && zero_lengths[1] && zero_lengths[2] {
        CellShape::Infinite
    } else if right_angles[0] && right_angles[1] && right_angles[2] {
        CellShape::Orthorhombic
    } else {
        CellShape::Triclinic
    }
}

/// Which kind of cell to build: unbounded when every edge length is zero,
/// rectangular when every angle is right, fully general otherwise.
pub fn construction_shape(zero_lengths: [bool; 3], right_angles: [bool; 3]) -> (r: CellShape)
    ensures
        r == constructed_shape(zero_lengths, right_angles),
{
    if zero_lengths[0] && zero_lengths[1] && zero_lengths[2] {
        CellShape::Infinite
    } else if right_angles[0] && right_angles[1] && right_angles[2] {
        CellShape::Orthorhombic
    } else {
        CellShape::Triclinic
    }
}

} // verus!
