//! Overload resolution for polyfilled matrix intrinsics.
//!
//! A shader backend that targets a language without native matrix inversion
//! or outer products must emit a hand-written helper routine for each exact
//! operand shape. This library decides, for a requested math operation and
//! the operand's type, which helper implements that combination, or that no
//! polyfill applies (the operation is natively supported, or the combination
//! is not polyfillable). The decision table is total over the legal domain
//! and injective: every legal shape has its own identifier.

use vstd::prelude::*;

verus! {

/// Width of a scalar element, in bytes.
pub type Bytes = u8;

/// Extent of a vector axis or a matrix column/row count: exactly 2, 3 or 4.
#[derive(Clone, Copy, Debug, PartialEq, Eq, Structural)]
pub enum VectorSize {
    /// Two components.
    Bi,
    /// Three components.
    Tri,
    /// Four components.
    Quad,
}

/// Classification of a scalar element.
#[derive(Clone, Copy, Debug, PartialEq, Eq, Structural)]
pub enum ScalarKind {
    /// Signed integer.
    Sint,
    /// Unsigned integer.
    Uint,
    /// Floating point.
    Float,
    /// Boolean.
    Bool,
}

/// A scalar element descriptor: its kind and its width in bytes.
#[derive(Clone, Copy, Debug, PartialEq, Eq, Structural)]
pub struct Scalar {
    pub kind: ScalarKind,
    pub width: Bytes,
}

/// The shape of an operand in the intermediate representation. Only the
/// matrix shape participates in polyfill resolution.
#[derive(Clone, Copy, Debug, PartialEq, Eq, Structural)]
pub enum TypeInner {
    Scalar(Scalar),
    Vector { size: VectorSize, scalar: Scalar },
    Matrix { columns: VectorSize, rows: VectorSize, scalar: Scalar },
}

/// The requested intrinsic math operation. Only `Inverse` and `Outer` are
/// polyfillable; the rest are here as the vocabulary a caller hands in.
#[derive(Clone, Copy, Debug, PartialEq, Eq, Structural)]
pub enum MathFunction {
    Abs,
    Min,
    Max,
    Dot,
    Cross,
    Transpose,
    Determinant,
    Inverse,
    Outer,
}

/// Names one concrete hand-written helper routine: three inverse helpers,
/// one per square dimension, and nine outer-product helpers, one per ordered
/// (columns, rows) pair.
#[derive(Clone, Copy, Debug, PartialEq, Eq, Structural)]
pub enum PolyfilledMathFunction {
    InverseMat2x2,
    InverseMat3x3,
    InverseMat4x4,

    OuterProduct2x2,
    OuterProduct3x3,
    OuterProduct4x4,

    OuterProduct3x2,
    OuterProduct2x3,

    OuterProduct4x2,
    OuterProduct2x4,

    OuterProduct4x3,
    OuterProduct3x4,
}

/// A resolved polyfill: which helper to emit, and the element width in
/// bytes to instantiate it at.
#[derive(Clone, Copy, Debug, PartialEq, Eq, Structural)]
pub struct PolyfillOverload {
    pub function: PolyfilledMathFunction,
    pub width: Bytes,
}

/// The inverse helper for a square matrix of the given dimension.
pub open spec fn inverse_polyfill(dimension: VectorSize) -> PolyfilledMathFunction {
    match dimension {
        VectorSize::Bi => PolyfilledMathFunction::InverseMat2x2,
        VectorSize::Tri => PolyfilledMathFunction::InverseMat3x3,
        VectorSize::Quad => PolyfilledMathFunction::InverseMat4x4,
    }
}

/// The outer-product helper for the ordered pair (columns, rows).
/// Direction matters: (3, 2) and (2, 3) name different helpers.
pub open spec fn outer_product_polyfill(
    columns: VectorSize,
    rows: VectorSize,
) -> PolyfilledMathFunction {
    match (columns, rows) {
        (VectorSize::Bi, VectorSize::Bi) => PolyfilledMathFunction::OuterProduct2x2,
        (VectorSize::Tri, VectorSize::Tri) => PolyfilledMathFunction::OuterProduct3x3,
        (VectorSize::Quad, VectorSize::Quad) => PolyfilledMathFunction::OuterProduct4x4,

        (VectorSize::Tri, VectorSize::Bi) => PolyfilledMathFunction::OuterProduct3x2,
        (VectorSize::Bi, VectorSize::Tri) => PolyfilledMathFunction::OuterProduct2x3,

        (VectorSize::Quad, VectorSize::Bi) => PolyfilledMathFunction::OuterProduct4x2,
        (VectorSize::Bi, VectorSize::Quad) => PolyfilledMathFunction::OuterProduct2x4,

        (VectorSize::Quad, VectorSize::Tri) => PolyfilledMathFunction::OuterProduct4x3,
        (VectorSize::Tri, VectorSize::Quad) => PolyfilledMathFunction::OuterProduct3x4,
    }
}

/// The full resolution table. A polyfill is selected exactly when the
/// operation is `Inverse` on a square floating-point matrix, or `Outer` on
/// any floating-point matrix; the selected width is the operand's element
/// width, unchanged.
pub open spec fn overload_spec(
    math_function: MathFunction,
    ty: TypeInner,
) -> Option<PolyfillOverload> {
    match (math_function, ty) {
        (MathFunction::Inverse, TypeInner::Matrix { columns, rows, scalar }) => {
            if columns == rows && scalar.kind == ScalarKind::Float {
                Some(
                    PolyfillOverload {
                        function: inverse_polyfill(columns),
                        width: scalar.width,
                    },
                )
            } else {
                None
            }
        },
        (MathFunction::Outer, TypeInner::Matrix { columns, rows, scalar }) => {
            if scalar.kind == ScalarKind::Float {
                Some(
                    PolyfillOverload {
                        function: outer_product_polyfill(columns, rows),
                        width: scalar.width,
                    },
                )
            } else {
                None
            }
        },
        _ => None,
    }
}

impl PolyfilledMathFunction {
    /// The inverse helper for a square matrix of the given dimension.
    pub fn inverse_for_vecsize(dimension: VectorSize) -> (r: PolyfilledMathFunction)
        ensures
            r == inverse_polyfill(dimension),
    {
        match dimension {
            VectorSize::Bi => PolyfilledMathFunction::InverseMat2x2,
            VectorSize::Tri => PolyfilledMathFunction::InverseMat3x3,
            VectorSize::Quad => PolyfilledMathFunction::InverseMat4x4,
        }
    }

    /// The outer-product helper for the ordered pair (columns, rows).
    pub fn outer_product_for_vecsize(columns: VectorSize, rows: VectorSize) -> (r:
        PolyfilledMathFunction)
        ensures
            r == outer_product_polyfill(columns, rows),
    {
        match (columns, rows) {
            (VectorSize::Bi, VectorSize::Bi) => PolyfilledMathFunction::OuterProduct2x2,
            (VectorSize::Tri, VectorSize::Tri) => PolyfilledMathFunction::OuterProduct3x3,
            (VectorSize::Quad, VectorSize::Quad) => PolyfilledMathFunction::OuterProduct4x4,

            (VectorSize::Tri, VectorSize::Bi) => PolyfilledMathFunction::OuterProduct3x2,
            (VectorSize::Bi, VectorSize::Tri) => PolyfilledMathFunction::OuterProduct2x3,

            (VectorSize::Quad, VectorSize::Bi) => PolyfilledMathFunction::OuterProduct4x2,
            (VectorSize::Bi, VectorSize::Quad) => PolyfilledMathFunction::OuterProduct2x4,

            (VectorSize::Quad, VectorSize::Tri) => PolyfilledMathFunction::OuterProduct4x3,
            (VectorSize::Tri, VectorSize::Quad) => PolyfilledMathFunction::OuterProduct3x4,
        }
    }
}

impl PolyfillOverload {
    /// Resolves a requested operation on an operand type to the polyfill
    /// that implements it, or `None` when no polyfill applies: the
    /// operation is not polyfillable, the operand is not a matrix, the
    /// element kind is not floating point, or `Inverse` was asked of a
    /// non-square matrix.
    pub fn find_overload(math_function: MathFunction, ty: &TypeInner) -> (r: Option<
        PolyfillOverload,
    >)
        ensures
            r == overload_spec(math_function, *ty),
    {
        if math_function == MathFunction::Inverse {
            match ty {
                TypeInner::Matrix { columns, rows, scalar } => {
                    if *columns == *rows && scalar.kind == ScalarKind::Float {
                        Some(
                            PolyfillOverload {
                                function: PolyfilledMathFunction::inverse_for_vecsize(*columns),
                                width: scalar.width,
                            },
                        )
                    } else {
                        None
                    }
                },
                _ => None,
            }
        } else if math_function == MathFunction::Outer {
            match ty {
                TypeInner::Matrix { columns, rows, scalar } => {
                    if scalar.kind == ScalarKind::Float {
                        Some(
                            PolyfillOverload {
                                function: PolyfilledMathFunction::outer_product_for_vecsize(
                                    *columns,
                                    *rows,
                                ),
                                width: scalar.width,
                            },
                        )
                    } else {
                        None
                    }
                },
                _ => None,
            }
        } else {
            None
        }
    }
}

/// Totality over the legal inverse domain: for every dimension `d`, inverting
/// a square floating-point matrix of extent `d` resolves to the inverse
/// helper for `d`, paired with the operand's element width.
pub proof fn lemma_inverse_total(d: VectorSize, width: Bytes)
    ensures
        overload_spec(
            MathFunction::Inverse,
            TypeInner::Matrix { columns: d, rows: d, scalar: Scalar { kind: ScalarKind::Float, width } },
        ) == Some(PolyfillOverload { function: inverse_polyfill(d), width }),
{
}

/// The dimension-to-inverse-helper mapping is injective: distinct dimensions
/// resolve to distinct helpers.
pub proof fn lemma_inverse_polyfill_injective(d1: VectorSize, d2: VectorSize)
    requires
        d1 != d2,
    ensures
        inverse_polyfill(d1) != inverse_polyfill(d2),
{
}

/// Inverse is square-only: a matrix whose column count differs from its row
/// count resolves to no polyfill, whatever its element descriptor.
pub proof fn lemma_inverse_requires_square(columns: VectorSize, rows: VectorSize, scalar: Scalar)
    requires
        columns != rows,
    ensures
        overload_spec(MathFunction::Inverse, TypeInner::Matrix { columns, rows, scalar }) is None,
{
}

/// Kind gate: a matrix whose element kind is not floating point resolves to
/// no polyfill, whatever the operation and shape.
pub proof fn lemma_float_only(
    math_function: MathFunction,
    columns: VectorSize,
    rows: VectorSize,
    scalar: Scalar,
)
    requires
        scalar.kind != ScalarKind::Float,
    ensures
        overload_spec(math_function, TypeInner::Matrix { columns, rows, scalar }) is None,
{
}

/// Totality over the outer-product domain: every ordered (columns, rows)
/// pair of a floating-point matrix resolves to the outer-product helper for
/// that pair, paired with the operand's element width.
pub proof fn lemma_outer_product_total(columns: VectorSize, rows: VectorSize, width: Bytes)
    ensures
        overload_spec(
            MathFunction::Outer,
            TypeInner::Matrix { columns, rows, scalar: Scalar { kind: ScalarKind::Float, width } },
        ) == Some(PolyfillOverload { function: outer_product_polyfill(columns, rows), width }),
{
}

/// The pair-to-outer-product-helper mapping is injective over all nine
/// ordered pairs: distinct (columns, rows) pairs resolve to distinct
/// helpers. In particular direction matters: (3, 2) and (2, 3) differ.
pub proof fn lemma_outer_product_polyfill_injective(
    c1: VectorSize,
    r1: VectorSize,
    c2: VectorSize,
    r2: VectorSize,
)
    requires
        c1 != c2 || r1 != r2,
    ensures
        outer_product_polyfill(c1, r1) != outer_product_polyfill(c2, r2),
{
}

/// The two helper families never collide: no inverse helper equals any
/// outer-product helper, so the whole table is a bijection onto the twelve
/// identifiers.
pub proof fn lemma_inverse_outer_disjoint(d: VectorSize, columns: VectorSize, rows: VectorSize)
    ensures
        inverse_polyfill(d) != outer_product_polyfill(columns, rows),
{
}

/// Operations other than `Inverse` and `Outer` resolve to no polyfill,
/// whatever the operand.
pub proof fn lemma_non_polyfillable_operation(math_function: MathFunction, ty: TypeInner)
    requires
        math_function != MathFunction::Inverse,
        math_function != MathFunction::Outer,
    ensures
        overload_spec(math_function, ty) is None,
{
}

/// A non-matrix operand resolves to no polyfill, whatever the operation.
pub proof fn lemma_non_matrix_operand(math_function: MathFunction, ty: TypeInner)
    requires
        !(ty is Matrix),
    ensures
        overload_spec(math_function, ty) is None,
{
}

/// Width passthrough: whenever a polyfill is selected, its width is the
/// operand's element width, unchanged.
pub proof fn lemma_width_passthrough(math_function: MathFunction, ty: TypeInner)
    ensures
        (overload_spec(math_function, ty) matches Some(overload) ==> (ty matches TypeInner::Matrix {
            scalar,
            ..
        } && overload.width == scalar.width)),
{
}

} // verus!
