//! Rotation algebra and cube state: integer rotation matrices, the six face
//! labels, the eighteen atomic moves, and the cube as eight per-slot
//! transforms.

use vstd::prelude::*;
use vstd::string::StrSliceExecFns;

verus! {

/// Mathematical view of a 3x3 integer matrix: a sequence of three rows,
/// each a sequence of three integers.
pub type Mat = Seq<Seq<int>>;

/// Mathematical view of a vector in Z^3.
pub type Vec3 = Seq<int>;

pub open spec fn m_wf(m: Mat) -> bool {
    m.len() == 3 && m[0].len() == 3 && m[1].len() == 3 && m[2].len() == 3
}

pub open spec fn v_wf(v: Vec3) -> bool {
    v.len() == 3
}

pub open spec fn mag(x: int) -> int {
    if x < 0 {
        -x
    } else {
        x
    }
}

/// The identity matrix.
pub open spec fn m_id() -> Mat {
    seq![seq![1, 0, 0], seq![0, 1, 0], seq![0, 0, 1]]
}

pub open spec fn m_transpose(m: Mat) -> Mat {
    seq![
        seq![m[0][0], m[1][0], m[2][0]],
        seq![m[0][1], m[1][1], m[2][1]],
        seq![m[0][2], m[1][2], m[2][2]],
    ]
}

/// The product x * y for x in {-1, 0, 1}, written by selecting on the sign
/// of x rather than with multiplication, so that it evaluates in linear
/// arithmetic. All matrix specifications below use it: every matrix they
/// are applied to has entries in {-1, 0, 1}.
pub open spec fn sm(x: int, y: int) -> int {
    if x == 0 {
        0
    } else if x == 1 {
        y
    } else {
        -y
    }
}

pub open spec fn dot3(a: Vec3, b: Vec3) -> int {
    sm(a[0], b[0]) + sm(a[1], b[1]) + sm(a[2], b[2])
}

/// Row i of the matrix product a * b.
pub open spec fn m_mul_row(a: Mat, b: Mat, i: int) -> Seq<int> {
    seq![
        sm(a[i][0], b[0][0]) + sm(a[i][1], b[1][0]) + sm(a[i][2], b[2][0]),
        sm(a[i][0], b[0][1]) + sm(a[i][1], b[1][1]) + sm(a[i][2], b[2][1]),
        sm(a[i][0], b[0][2]) + sm(a[i][1], b[1][2]) + sm(a[i][2], b[2][2]),
    ]
}

/// The matrix product a * b.
pub open spec fn m_mul(a: Mat, b: Mat) -> Mat {
    seq![m_mul_row(a, b, 0), m_mul_row(a, b, 1), m_mul_row(a, b, 2)]
}

/// The image of column vector v under matrix m.
pub open spec fn m_apply(m: Mat, v: Vec3) -> Vec3 {
    seq![dot3(m[0], v), dot3(m[1], v), dot3(m[2], v)]
}

/// All entries lie in {-1, 0, 1}.
pub open spec fn m_bounded(m: Mat) -> bool {
    &&& m_wf(m)
    &&& -1 <= m[0][0] <= 1
    &&& -1 <= m[0][1] <= 1
    &&& -1 <= m[0][2] <= 1
    &&& -1 <= m[1][0] <= 1
    &&& -1 <= m[1][1] <= 1
    &&& -1 <= m[1][2] <= 1
    &&& -1 <= m[2][0] <= 1
    &&& -1 <= m[2][1] <= 1
    &&& -1 <= m[2][2] <= 1
}

/// A signed permutation matrix: each row and each column holds exactly one
/// nonzero entry, which is 1 or -1. Such matrices are exactly the integer
/// orthogonal 3x3 matrices, so the inverse is the transpose.
pub open spec fn m_orthogonal(m: Mat) -> bool {
    &&& m_bounded(m)
    &&& mag(m[0][0]) + mag(m[0][1]) + mag(m[0][2]) == 1
    &&& mag(m[1][0]) + mag(m[1][1]) + mag(m[1][2]) == 1
    &&& mag(m[2][0]) + mag(m[2][1]) + mag(m[2][2]) == 1
    &&& mag(m[0][0]) + mag(m[1][0]) + mag(m[2][0]) == 1
    &&& mag(m[0][1]) + mag(m[1][1]) + mag(m[2][1]) == 1
    &&& mag(m[0][2]) + mag(m[1][2]) + mag(m[2][2]) == 1
}

/// The determinant of a 3x3 matrix with entries in {-1, 0, 1}.
pub open spec fn m_det(m: Mat) -> int {
    sm(m[0][0], sm(m[1][1], m[2][2]) - sm(m[1][2], m[2][1])) - sm(
        m[0][1],
        sm(m[1][0], m[2][2]) - sm(m[1][2], m[2][0]),
    ) + sm(m[0][2], sm(m[1][0], m[2][1]) - sm(m[1][1], m[2][0]))
}

/// A rotation of a single corner, stored as a 3x3 integer matrix.
/// Every transform a cube ever holds is orthogonal (`m_orthogonal`), but the
/// type itself does not force this: well-formedness is stated where it is
/// needed.
#[derive(Clone, Copy, Debug, PartialEq, Eq)]
pub struct Transform {
    pub entries: [[i32; 3]; 3],
}

impl Transform {
    /// The matrix this transform holds, as a mathematical value.
    pub open spec fn mat(self) -> Mat {
        seq![
            seq![self.entries[0][0] as int, self.entries[0][1] as int, self.entries[0][2] as int],
            seq![self.entries[1][0] as int, self.entries[1][1] as int, self.entries[1][2] as int],
            seq![self.entries[2][0] as int, self.entries[2][1] as int, self.entries[2][2] as int],
        ]
    }

    pub fn identity() -> (r: Transform)
        ensures
            r.mat() =~~= m_id(),
            m_orthogonal(r.mat()),
    {
        Transform { entries: [[1, 0, 0], [0, 1, 0], [0, 0, 1]] }
    }

    /// The inverse rotation. The transform must be orthogonal, so the
    /// inverse is the transpose.
    pub fn inverse(&self) -> (r: Transform)
        ensures
            r.mat() =~~= m_transpose(self.mat()),
    {
        Transform {
            entries: [
                [self.entries[0][0], self.entries[1][0], self.entries[2][0]],
                [self.entries[0][1], self.entries[1][1], self.entries[2][1]],
                [self.entries[0][2], self.entries[1][2], self.entries[2][2]],
            ],
        }
    }

    /// The rotation that performs `self` first and `next` second:
    /// the matrix product `next * self`.
    pub fn sequence(&self, next: Transform) -> (r: Transform)
        requires
            m_bounded(self.mat()),
            m_bounded(next.mat()),
        ensures
            r.mat() =~~= m_mul(next.mat(), self.mat()),
    {
        let a = &next.entries;
        let b = &self.entries;
        proof {
            lemma_row_dot(a[0][0] as int, a[0][1] as int, a[0][2] as int, b[0][0] as int, b[1][0] as int, b[2][0] as int);
            lemma_row_dot(a[0][0] as int, a[0][1] as int, a[0][2] as int, b[0][1] as int, b[1][1] as int, b[2][1] as int);
            lemma_row_dot(a[0][0] as int, a[0][1] as int, a[0][2] as int, b[0][2] as int, b[1][2] as int, b[2][2] as int);
            lemma_row_dot(a[1][0] as int, a[1][1] as int, a[1][2] as int, b[0][0] as int, b[1][0] as int, b[2][0] as int);
            lemma_row_dot(a[1][0] as int, a[1][1] as int, a[1][2] as int, b[0][1] as int, b[1][1] as int, b[2][1] as int);
            lemma_row_dot(a[1][0] as int, a[1][1] as int, a[1][2] as int, b[0][2] as int, b[1][2] as int, b[2][2] as int);
            lemma_row_dot(a[2][0] as int, a[2][1] as int, a[2][2] as int, b[0][0] as int, b[1][0] as int, b[2][0] as int);
            lemma_row_dot(a[2][0] as int, a[2][1] as int, a[2][2] as int, b[0][1] as int, b[1][1] as int, b[2][1] as int);
            lemma_row_dot(a[2][0] as int, a[2][1] as int, a[2][2] as int, b[0][2] as int, b[1][2] as int, b[2][2] as int);
        }
        Transform {
            entries: [
                [
                    a[0][0] * b[0][0] + a[0][1] * b[1][0] + a[0][2] * b[2][0],
                    a[0][0] * b[0][1] + a[0][1] * b[1][1] + a[0][2] * b[2][1],
                    a[0][0] * b[0][2] + a[0][1] * b[1][2] + a[0][2] * b[2][2],
                ],
                [
                    a[1][0] * b[0][0] + a[1][1] * b[1][0] + a[1][2] * b[2][0],
                    a[1][0] * b[0][1] + a[1][1] * b[1][1] + a[1][2] * b[2][1],
                    a[1][0] * b[0][2] + a[1][1] * b[1][2] + a[1][2] * b[2][2],
                ],
                [
                    a[2][0] * b[0][0] + a[2][1] * b[1][0] + a[2][2] * b[2][0],
                    a[2][0] * b[0][1] + a[2][1] * b[1][1] + a[2][2] * b[2][1],
                    a[2][0] * b[0][2] + a[2][1] * b[1][2] + a[2][2] * b[2][2],
                ],
            ],
        }
    }

    /// The image of a unit-cube vector (coordinates in {-1, 0, 1}) under
    /// this transform.
    pub fn apply(&self, x: &[i32; 3]) -> (y: [i32; 3])
        requires
            m_bounded(self.mat()),
            -1 <= x[0] <= 1,
            -1 <= x[1] <= 1,
            -1 <= x[2] <= 1,
        ensures
            seq![y[0] as int, y[1] as int, y[2] as int] =~= m_apply(
                self.mat(),
                seq![x[0] as int, x[1] as int, x[2] as int],
            ),
    {
        let e = &self.entries;
        proof {
            lemma_row_dot(e[0][0] as int, e[0][1] as int, e[0][2] as int, x[0] as int, x[1] as int, x[2] as int);
            lemma_row_dot(e[1][0] as int, e[1][1] as int, e[1][2] as int, x[0] as int, x[1] as int, x[2] as int);
            lemma_row_dot(e[2][0] as int, e[2][1] as int, e[2][2] as int, x[0] as int, x[1] as int, x[2] as int);
        }
        [
            e[0][0] * x[0] + e[0][1] * x[1] + e[0][2] * x[2],
            e[1][0] * x[0] + e[1][1] * x[1] + e[1][2] * x[2],
            e[2][0] * x[0] + e[2][1] * x[1] + e[2][2] * x[2],
        ]
    }
}

/// `sm` computes the product of two values when the first lies in
/// {-1, 0, 1}.
pub proof fn lemma_sm_mul(x: int, y: int)
    requires
        -1 <= x <= 1,
    ensures
        x * y == sm(x, y),
{
    if x == 0 {
        assert(x * y == 0) by (nonlinear_arith)
            requires
                x == 0,
        ;
    } else if x == 1 {
        assert(x * y == y) by (nonlinear_arith)
            requires
                x == 1,
        ;
    } else {
        assert(x * y == -y) by (nonlinear_arith)
            requires
                x == -1,
        ;
    }
}

/// Bridges the products an executable dot product computes to the
/// `sm`-based specification, and bounds them.
pub proof fn lemma_row_dot(a0: int, a1: int, a2: int, b0: int, b1: int, b2: int)
    requires
        -1 <= a0 <= 1,
        -1 <= a1 <= 1,
        -1 <= a2 <= 1,
        -1 <= b0 <= 1,
        -1 <= b1 <= 1,
        -1 <= b2 <= 1,
    ensures
        a0 * b0 == sm(a0, b0),
        a1 * b1 == sm(a1, b1),
        a2 * b2 == sm(a2, b2),
        -1 <= sm(a0, b0) <= 1,
        -1 <= sm(a1, b1) <= 1,
        -1 <= sm(a2, b2) <= 1,
{
    lemma_sm_mul(a0, b0);
    lemma_sm_mul(a1, b1);
    lemma_sm_mul(a2, b2);
}

/// A combination sm(a0, x) + sm(a1, y) + sm(a2, z) of three rows, where
/// the coefficient vector holds exactly one nonzero entry, which is 1 or
/// -1, is one of the rows up to sign: it is bounded and holds exactly one
/// nonzero entry itself.
proof fn lemma_signed_unit_row(
    a0: int, a1: int, a2: int,
    x0: int, x1: int, x2: int,
    y0: int, y1: int, y2: int,
    z0: int, z1: int, z2: int,
)
    requires
        -1 <= a0 <= 1,
        -1 <= a1 <= 1,
        -1 <= a2 <= 1,
        mag(a0) + mag(a1) + mag(a2) == 1,
        -1 <= x0 <= 1,
        -1 <= x1 <= 1,
        -1 <= x2 <= 1,
        -1 <= y0 <= 1,
        -1 <= y1 <= 1,
        -1 <= y2 <= 1,
        -1 <= z0 <= 1,
        -1 <= z1 <= 1,
        -1 <= z2 <= 1,
        mag(x0) + mag(x1) + mag(x2) == 1,
        mag(y0) + mag(y1) + mag(y2) == 1,
        mag(z0) + mag(z1) + mag(z2) == 1,
    ensures
        -1 <= sm(a0, x0) + sm(a1, y0) + sm(a2, z0) <= 1,
        -1 <= sm(a0, x1) + sm(a1, y1) + sm(a2, z1) <= 1,
        -1 <= sm(a0, x2) + sm(a1, y2) + sm(a2, z2) <= 1,
        mag(sm(a0, x0) + sm(a1, y0) + sm(a2, z0)) + mag(sm(a0, x1) + sm(a1, y1) + sm(a2, z1))
            + mag(sm(a0, x2) + sm(a1, y2) + sm(a2, z2)) == 1,
{
}

/// Dotting each row of a matrix with a vector that holds exactly one
/// nonzero entry, which is 1 or -1, picks one column of the matrix up to
/// sign: the three dot products together hold exactly one nonzero entry.
proof fn lemma_signed_unit_col(
    c0: int, c1: int, c2: int,
    a00: int, a01: int, a02: int,
    a10: int, a11: int, a12: int,
    a20: int, a21: int, a22: int,
)
    requires
        -1 <= c0 <= 1,
        -1 <= c1 <= 1,
        -1 <= c2 <= 1,
        mag(c0) + mag(c1) + mag(c2) == 1,
        -1 <= a00 <= 1,
        -1 <= a01 <= 1,
        -1 <= a02 <= 1,
        -1 <= a10 <= 1,
        -1 <= a11 <= 1,
        -1 <= a12 <= 1,
        -1 <= a20 <= 1,
        -1 <= a21 <= 1,
        -1 <= a22 <= 1,
        mag(a00) + mag(a10) + mag(a20) == 1,
        mag(a01) + mag(a11) + mag(a21) == 1,
        mag(a02) + mag(a12) + mag(a22) == 1,
    ensures
        mag(sm(a00, c0) + sm(a01, c1) + sm(a02, c2)) + mag(sm(a10, c0) + sm(a11, c1) + sm(a12, c2))
            + mag(sm(a20, c0) + sm(a21, c1) + sm(a22, c2)) == 1,
{
}

/// The product of two signed permutation matrices is a signed permutation
/// matrix.
#[verifier::rlimit(100)]
pub proof fn lemma_mul_orthogonal(a: Mat, b: Mat)
    requires
        m_orthogonal(a),
        m_orthogonal(b),
    ensures
        m_orthogonal(m_mul(a, b)),
{
    let p = m_mul(a, b);
    assert(p[0][0] == sm(a[0][0], b[0][0]) + sm(a[0][1], b[1][0]) + sm(a[0][2], b[2][0]));
    assert(p[0][1] == sm(a[0][0], b[0][1]) + sm(a[0][1], b[1][1]) + sm(a[0][2], b[2][1]));
    assert(p[0][2] == sm(a[0][0], b[0][2]) + sm(a[0][1], b[1][2]) + sm(a[0][2], b[2][2]));
    assert(p[1][0] == sm(a[1][0], b[0][0]) + sm(a[1][1], b[1][0]) + sm(a[1][2], b[2][0]));
    assert(p[1][1] == sm(a[1][0], b[0][1]) + sm(a[1][1], b[1][1]) + sm(a[1][2], b[2][1]));
    assert(p[1][2] == sm(a[1][0], b[0][2]) + sm(a[1][1], b[1][2]) + sm(a[1][2], b[2][2]));
    assert(p[2][0] == sm(a[2][0], b[0][0]) + sm(a[2][1], b[1][0]) + sm(a[2][2], b[2][0]));
    assert(p[2][1] == sm(a[2][0], b[0][1]) + sm(a[2][1], b[1][1]) + sm(a[2][2], b[2][1]));
    assert(p[2][2] == sm(a[2][0], b[0][2]) + sm(a[2][1], b[1][2]) + sm(a[2][2], b[2][2]));
    lemma_signed_unit_row(
        a[0][0], a[0][1], a[0][2],
        b[0][0], b[0][1], b[0][2],
        b[1][0], b[1][1], b[1][2],
        b[2][0], b[2][1], b[2][2],
    );
    lemma_signed_unit_row(
        a[1][0], a[1][1], a[1][2],
        b[0][0], b[0][1], b[0][2],
        b[1][0], b[1][1], b[1][2],
        b[2][0], b[2][1], b[2][2],
    );
    lemma_signed_unit_row(
        a[2][0], a[2][1], a[2][2],
        b[0][0], b[0][1], b[0][2],
        b[1][0], b[1][1], b[1][2],
        b[2][0], b[2][1], b[2][2],
    );
    lemma_signed_unit_col(
        b[0][0], b[1][0], b[2][0],
        a[0][0], a[0][1], a[0][2],
        a[1][0], a[1][1], a[1][2],
        a[2][0], a[2][1], a[2][2],
    );
    lemma_signed_unit_col(
        b[0][1], b[1][1], b[2][1],
        a[0][0], a[0][1], a[0][2],
        a[1][0], a[1][1], a[1][2],
        a[2][0], a[2][1], a[2][2],
    );
    lemma_signed_unit_col(
        b[0][2], b[1][2], b[2][2],
        a[0][0], a[0][1], a[0][2],
        a[1][0], a[1][1], a[1][2],
        a[2][0], a[2][1], a[2][2],
    );
}

/// Transposing an orthogonal matrix yields an orthogonal matrix.
pub proof fn lemma_transpose_orthogonal(m: Mat)
    requires
        m_orthogonal(m),
    ensures
        m_orthogonal(m_transpose(m)),
{
}

/// A vector with coordinates in {-1, 1} dotted with a vector that holds
/// exactly one nonzero entry, which is 1 or -1, yields 1 or -1.
pub proof fn lemma_unit_image(c0: int, c1: int, c2: int, p0: int, p1: int, p2: int)
    requires
        -1 <= c0 <= 1,
        -1 <= c1 <= 1,
        -1 <= c2 <= 1,
        mag(c0) + mag(c1) + mag(c2) == 1,
        mag(p0) == 1,
        mag(p1) == 1,
        mag(p2) == 1,
    ensures
        mag(sm(c0, p0) + sm(c1, p1) + sm(c2, p2)) == 1,
{
}

/// Two vectors that are nowhere both nonzero have dot product zero.
proof fn lemma_dot_zero(x0: int, x1: int, x2: int, y0: int, y1: int, y2: int)
    requires
        -1 <= x0 <= 1,
        -1 <= x1 <= 1,
        -1 <= x2 <= 1,
        mag(x0) + mag(y0) <= 1,
        mag(x1) + mag(y1) <= 1,
        mag(x2) + mag(y2) <= 1,
    ensures
        sm(x0, y0) + sm(x1, y1) + sm(x2, y2) == 0,
{
}

/// A vector that holds exactly one nonzero entry, which is 1 or -1, has
/// dot product 1 with itself.
proof fn lemma_dot_self(x0: int, x1: int, x2: int)
    requires
        -1 <= x0 <= 1,
        -1 <= x1 <= 1,
        -1 <= x2 <= 1,
        mag(x0) + mag(x1) + mag(x2) == 1,
    ensures
        sm(x0, x0) + sm(x1, x1) + sm(x2, x2) == 1,
{
}

/// The transpose of an orthogonal matrix is its inverse: composing a
/// rotation with its inverse yields the identity.
pub proof fn lemma_compose_inverse(m: Mat)
    requires
        m_orthogonal(m),
    ensures
        m_mul(m_transpose(m), m) =~~= m_id(),
        m_mul(m, m_transpose(m)) =~~= m_id(),
{
    // Entry (i, j) of transpose(m) * m is the dot product of columns i and
    // j of m; entry (i, j) of m * transpose(m) is the dot product of rows.
    // Distinct rows (or columns) are nowhere both nonzero, because each
    // column (or row) holds a single nonzero entry.
    lemma_dot_self(m[0][0], m[1][0], m[2][0]);
    lemma_dot_self(m[0][1], m[1][1], m[2][1]);
    lemma_dot_self(m[0][2], m[1][2], m[2][2]);
    lemma_dot_zero(m[0][0], m[1][0], m[2][0], m[0][1], m[1][1], m[2][1]);
    lemma_dot_zero(m[0][0], m[1][0], m[2][0], m[0][2], m[1][2], m[2][2]);
    lemma_dot_zero(m[0][1], m[1][1], m[2][1], m[0][0], m[1][0], m[2][0]);
    lemma_dot_zero(m[0][1], m[1][1], m[2][1], m[0][2], m[1][2], m[2][2]);
    lemma_dot_zero(m[0][2], m[1][2], m[2][2], m[0][0], m[1][0], m[2][0]);
    lemma_dot_zero(m[0][2], m[1][2], m[2][2], m[0][1], m[1][1], m[2][1]);
    lemma_dot_self(m[0][0], m[0][1], m[0][2]);
    lemma_dot_self(m[1][0], m[1][1], m[1][2]);
    lemma_dot_self(m[2][0], m[2][1], m[2][2]);
    lemma_dot_zero(m[0][0], m[0][1], m[0][2], m[1][0], m[1][1], m[1][2]);
    lemma_dot_zero(m[0][0], m[0][1], m[0][2], m[2][0], m[2][1], m[2][2]);
    lemma_dot_zero(m[1][0], m[1][1], m[1][2], m[0][0], m[0][1], m[0][2]);
    lemma_dot_zero(m[1][0], m[1][1], m[1][2], m[2][0], m[2][1], m[2][2]);
    lemma_dot_zero(m[2][0], m[2][1], m[2][2], m[0][0], m[0][1], m[0][2]);
    lemma_dot_zero(m[2][0], m[2][1], m[2][2], m[1][0], m[1][1], m[1][2]);
}

/// One of the six face labels of the cube.
#[derive(Clone, Copy, Debug, PartialEq, Eq, Structural)]
pub enum Side {
    L,
    R,
    D,
    U,
    B,
    F,
}

impl Side {
    /// The index of this side: sides come in axis order, the negative side
    /// of each axis first.
    pub open spec fn index(self) -> int {
        match self {
            Side::L => 0,
            Side::R => 1,
            Side::D => 2,
            Side::U => 3,
            Side::B => 4,
            Side::F => 5,
        }
    }

    /// The side with the given index.
    pub fn from(idx: i32) -> (r: Side)
        requires
            0 <= idx < 6,
        ensures
            r.index() == idx,
    {
        match idx {
            0 => Side::L,
            1 => Side::R,
            2 => Side::D,
            3 => Side::U,
            4 => Side::B,
            _ => Side::F,
        }
    }

    /// The canonical name of the given side.
    pub open spec fn name_chars(side: Side) -> Seq<char> {
        match side {
            Side::L => seq!['l', 'e', 'f', 't'],
            Side::R => seq!['r', 'i', 'g', 'h', 't'],
            Side::D => seq!['d', 'o', 'w', 'n'],
            Side::U => seq!['u', 'p'],
            Side::B => seq!['b', 'a', 'c', 'k'],
            Side::F => seq!['f', 'r', 'o', 'n', 't'],
        }
    }

    /// The side whose canonical name the given string holds, if any.
    pub open spec fn deserialize_spec(s: Seq<char>) -> Option<Side> {
        if s == Side::name_chars(Side::L) {
            Some(Side::L)
        } else if s == Side::name_chars(Side::R) {
            Some(Side::R)
        } else if s == Side::name_chars(Side::D) {
            Some(Side::D)
        } else if s == Side::name_chars(Side::U) {
            Some(Side::U)
        } else if s == Side::name_chars(Side::B) {
            Some(Side::B)
        } else if s == Side::name_chars(Side::F) {
            Some(Side::F)
        } else {
            None
        }
    }

    /// Parses a canonical side name; any other string yields `None`.
    pub fn deserialize(serialization: &str) -> (r: Option<Side>)
        ensures
            r == Side::deserialize_spec(serialization@),
    {
        let n = serialization.unicode_len();
        let r = if n == 4 {
            let c0 = serialization.get_char(0);
            let c1 = serialization.get_char(1);
            let c2 = serialization.get_char(2);
            let c3 = serialization.get_char(3);
            if c0 == 'l' && c1 == 'e' && c2 == 'f' && c3 == 't' {
                Some(Side::L)
            } else if c0 == 'd' && c1 == 'o' && c2 == 'w' && c3 == 'n' {
                Some(Side::D)
            } else if c0 == 'b' && c1 == 'a' && c2 == 'c' && c3 == 'k' {
                Some(Side::B)
            } else {
                None
            }
        } else if n == 5 {
            let c0 = serialization.get_char(0);
            let c1 = serialization.get_char(1);
            let c2 = serialization.get_char(2);
            let c3 = serialization.get_char(3);
            let c4 = serialization.get_char(4);
            if c0 == 'r' && c1 == 'i' && c2 == 'g' && c3 == 'h' && c4 == 't' {
                Some(Side::R)
            } else if c0 == 'f' && c1 == 'r' && c2 == 'o' && c3 == 'n' && c4 == 't' {
                Some(Side::F)
            } else {
                None
            }
        } else if n == 2 {
            let c0 = serialization.get_char(0);
            let c1 = serialization.get_char(1);
            if c0 == 'u' && c1 == 'p' {
                Some(Side::U)
            } else {
                None
            }
        } else {
            None
        };
        proof {
            let s = serialization@;
            if r is Some {
                assert(s =~= Side::name_chars(r.unwrap()));
            }
        }
        r
    }

    /// The canonical name of a side.
    pub fn serialization(side: Side) -> (r: &'static str)
        ensures
            r@ == Side::name_chars(side),
    {
        let r = match side {
            Side::L => "left",
            Side::R => "right",
            Side::D => "down",
            Side::U => "up",
            Side::B => "back",
            Side::F => "front",
        };
        proof {
            reveal_strlit("left");
            reveal_strlit("right");
            reveal_strlit("down");
            reveal_strlit("up");
            reveal_strlit("back");
            reveal_strlit("front");
            assert(r@ =~= Side::name_chars(side));
        }
        r
    }
}

/// The outward unit normal of a side.
pub open spec fn normal_spec(side: Side) -> Vec3 {
    match side {
        Side::L => seq![-1, 0, 0],
        Side::R => seq![1, 0, 0],
        Side::D => seq![0, -1, 0],
        Side::U => seq![0, 1, 0],
        Side::B => seq![0, 0, -1],
        Side::F => seq![0, 0, 1],
    }
}

/// The outward unit normal of a side.
pub fn normal(side: Side) -> (r: [i32; 3])
    ensures
        seq![r[0] as int, r[1] as int, r[2] as int] =~= normal_spec(side),
{
    match side {
        Side::L => [-1, 0, 0],
        Side::R => [1, 0, 0],
        Side::D => [0, -1, 0],
        Side::U => [0, 1, 0],
        Side::B => [0, 0, -1],
        Side::F => [0, 0, 1],
    }
}

/// Whether a vector is the outward normal of some face: exactly one
/// coordinate is nonzero, and that coordinate is 1 or -1.
pub open spec fn is_face_normal_spec(v: Vec3) -> bool {
    &&& -1 <= v[0] <= 1
    &&& -1 <= v[1] <= 1
    &&& -1 <= v[2] <= 1
    &&& mag(v[0]) + mag(v[1]) + mag(v[2]) == 1
}

pub fn is_face_normal(normal: [i32; 3]) -> (r: bool)
    ensures
        r == is_face_normal_spec(seq![normal[0] as int, normal[1] as int, normal[2] as int]),
{
    let mut zero_count: i32 = 0;
    if normal[0] == 0 {
        zero_count += 1;
    } else if normal[0] > 1 || normal[0] < -1 {
        return false;
    }
    if normal[1] == 0 {
        zero_count += 1;
    } else if normal[1] > 1 || normal[1] < -1 {
        return false;
    }
    if normal[2] == 0 {
        zero_count += 1;
    } else if normal[2] > 1 || normal[2] < -1 {
        return false;
    }
    zero_count == 2
}

/// The side whose outward normal the given vector is.
pub fn normal_side(normal: [i32; 3]) -> (r: Side)
    requires
        is_face_normal_spec(seq![normal[0] as int, normal[1] as int, normal[2] as int]),
    ensures
        normal_spec(r) =~= seq![normal[0] as int, normal[1] as int, normal[2] as int],
{
    if normal[0] == -1 {
        Side::L
    } else if normal[0] == 1 {
        Side::R
    } else if normal[1] == -1 {
        Side::D
    } else if normal[1] == 1 {
        Side::U
    } else if normal[2] == -1 {
        Side::B
    } else {
        Side::F
    }
}

/// Whether all coordinates of a position lie in {-1, 0, 1}.
pub open spec fn in_cube_spec(v: Vec3) -> bool {
    -1 <= v[0] <= 1 && -1 <= v[1] <= 1 && -1 <= v[2] <= 1
}

pub fn in_cube(position: &[i32; 3]) -> (r: bool)
    ensures
        r == in_cube_spec(seq![position[0] as int, position[1] as int, position[2] as int]),
{
    -1 <= position[0] && position[0] <= 1 && -1 <= position[1] && position[1] <= 1 && -1
        <= position[2] && position[2] <= 1
}

/// The inner product of two vectors with coordinates in {-1, 0, 1}.
pub fn inner_product(a: &[i32; 3], b: &[i32; 3]) -> (r: i32)
    requires
        in_cube_spec(seq![a[0] as int, a[1] as int, a[2] as int]),
        in_cube_spec(seq![b[0] as int, b[1] as int, b[2] as int]),
    ensures
        r as int == dot3(
            seq![a[0] as int, a[1] as int, a[2] as int],
            seq![b[0] as int, b[1] as int, b[2] as int],
        ),
{
    proof {
        lemma_row_dot(a[0] as int, a[1] as int, a[2] as int, b[0] as int, b[1] as int, b[2] as int);
    }
    a[0] * b[0] + a[1] * b[1] + a[2] * b[2]
}

/// The corner position with the given 0/1 index coordinates: index 0 maps
/// to coordinate -1 and index 1 to coordinate 1.
pub fn index_position(index: &[i32; 3]) -> (r: [i32; 3])
    requires
        0 <= index[0] <= 1,
        0 <= index[1] <= 1,
        0 <= index[2] <= 1,
    ensures
        r[0] == 2 * index[0] - 1,
        r[1] == 2 * index[1] - 1,
        r[2] == 2 * index[2] - 1,
{
    [2 * index[0] - 1, 2 * index[1] - 1, 2 * index[2] - 1]
}

/// The 0/1 index coordinates of a corner position.
pub fn position_index(position: &[i32; 3]) -> (r: [i32; 3])
    requires
        in_cube_spec(seq![position[0] as int, position[1] as int, position[2] as int]),
    ensures
        r[0] == (position[0] + 1) / 2,
        r[1] == (position[1] + 1) / 2,
        r[2] == (position[2] + 1) / 2,
{
    [(position[0] + 1) / 2, (position[1] + 1) / 2, (position[2] + 1) / 2]
}

/// The three face normals a corner at the given position shows: one along
/// each axis, pointing outward.
pub fn cubicle_face_normals(cubicle_position: &[i32; 3]) -> (r: [[i32; 3]; 3])
    ensures
        r[0][0] == cubicle_position[0] && r[0][1] == 0 && r[0][2] == 0,
        r[1][0] == 0 && r[1][1] == cubicle_position[1] && r[1][2] == 0,
        r[2][0] == 0 && r[2][1] == 0 && r[2][2] == cubicle_position[2],
{
    [
        [cubicle_position[0], 0, 0],
        [0, cubicle_position[1], 0],
        [0, 0, cubicle_position[2]],
    ]
}

/// One of the eighteen atomic moves: each face turned by 90, 180 or 270
/// degrees clockwise, viewed from outside that face.
#[derive(Clone, Copy, Debug, PartialEq, Eq, Structural)]
pub enum Move {
    L1,
    L2,
    L3,
    R1,
    R2,
    R3,
    D1,
    D2,
    D3,
    U1,
    U2,
    U3,
    B1,
    B2,
    B3,
    F1,
    F2,
    F3,
}

impl Move {
    /// The index of this move: three turn amounts per face, faces in the
    /// order of `Side`.
    pub open spec fn index(self) -> int {
        match self {
            Move::L1 => 0,
            Move::L2 => 1,
            Move::L3 => 2,
            Move::R1 => 3,
            Move::R2 => 4,
            Move::R3 => 5,
            Move::D1 => 6,
            Move::D2 => 7,
            Move::D3 => 8,
            Move::U1 => 9,
            Move::U2 => 10,
            Move::U3 => 11,
            Move::B1 => 12,
            Move::B2 => 13,
            Move::B3 => 14,
            Move::F1 => 15,
            Move::F2 => 16,
            Move::F3 => 17,
        }
    }

    /// The move with the given index.
    pub open spec fn of_index(i: int) -> Move {
        if i == 0 {
            Move::L1
        } else if i == 1 {
            Move::L2
        } else if i == 2 {
            Move::L3
        } else if i == 3 {
            Move::R1
        } else if i == 4 {
            Move::R2
        } else if i == 5 {
            Move::R3
        } else if i == 6 {
            Move::D1
        } else if i == 7 {
            Move::D2
        } else if i == 8 {
            Move::D3
        } else if i == 9 {
            Move::U1
        } else if i == 10 {
            Move::U2
        } else if i == 11 {
            Move::U3
        } else if i == 12 {
            Move::B1
        } else if i == 13 {
            Move::B2
        } else if i == 14 {
            Move::B3
        } else if i == 15 {
            Move::F1
        } else if i == 16 {
            Move::F2
        } else {
            Move::F3
        }
    }

    /// The move with the given index.
    pub fn from(i: u8) -> (r: Move)
        requires
            i < 18,
        ensures
            r == Move::of_index(i as int),
            r.index() == i,
    {
        match i {
            0 => Move::L1,
            1 => Move::L2,
            2 => Move::L3,
            3 => Move::R1,
            4 => Move::R2,
            5 => Move::R3,
            6 => Move::D1,
            7 => Move::D2,
            8 => Move::D3,
            9 => Move::U1,
            10 => Move::U2,
            11 => Move::U3,
            12 => Move::B1,
            13 => Move::B2,
            14 => Move::B3,
            15 => Move::F1,
            16 => Move::F2,
            _ => Move::F3,
        }
    }

    /// The index of this move.
    pub fn to_index(&self) -> (r: u8)
        ensures
            r as int == self.index(),
            r < 18,
    {
        match self {
            Move::L1 => 0,
            Move::L2 => 1,
            Move::L3 => 2,
            Move::R1 => 3,
            Move::R2 => 4,
            Move::R3 => 5,
            Move::D1 => 6,
            Move::D2 => 7,
            Move::D3 => 8,
            Move::U1 => 9,
            Move::U2 => 10,
            Move::U3 => 11,
            Move::B1 => 12,
            Move::B2 => 13,
            Move::B3 => 14,
            Move::F1 => 15,
            Move::F2 => 16,
            Move::F3 => 17,
        }
    }

    /// The face this move turns.
    pub fn side(&self) -> (r: Side)
        ensures
            r.index() == self.index() / 3,
    {
        Side::from(self.to_index() as i32 / 3)
    }

    /// The rotation this move applies to the corners on its face.
    pub fn transform(&self) -> (r: Transform)
        ensures
            r.mat() =~~= move_mat(*self),
            m_orthogonal(move_mat(*self)),
    {
        let e = match *self {
            Move::L1 => [[1, 0, 0], [0, 0, 1], [0, -1, 0]],
            Move::L2 => [[1, 0, 0], [0, -1, 0], [0, 0, -1]],
            Move::L3 => [[1, 0, 0], [0, 0, -1], [0, 1, 0]],
            Move::R1 => [[1, 0, 0], [0, 0, -1], [0, 1, 0]],
            Move::R2 => [[1, 0, 0], [0, -1, 0], [0, 0, -1]],
            Move::R3 => [[1, 0, 0], [0, 0, 1], [0, -1, 0]],
            Move::D1 => [[0, 0, -1], [0, 1, 0], [1, 0, 0]],
            Move::D2 => [[-1, 0, 0], [0, 1, 0], [0, 0, -1]],
            Move::D3 => [[0, 0, 1], [0, 1, 0], [-1, 0, 0]],
            Move::U1 => [[0, 0, 1], [0, 1, 0], [-1, 0, 0]],
            Move::U2 => [[-1, 0, 0], [0, 1, 0], [0, 0, -1]],
            Move::U3 => [[0, 0, -1], [0, 1, 0], [1, 0, 0]],
            Move::B1 => [[0, 1, 0], [-1, 0, 0], [0, 0, 1]],
            Move::B2 => [[-1, 0, 0], [0, -1, 0], [0, 0, 1]],
            Move::B3 => [[0, -1, 0], [1, 0, 0], [0, 0, 1]],
            Move::F1 => [[0, -1, 0], [1, 0, 0], [0, 0, 1]],
            Move::F2 => [[-1, 0, 0], [0, -1, 0], [0, 0, 1]],
            Move::F3 => [[0, 1, 0], [-1, 0, 0], [0, 0, 1]],
        };
        proof {
            reveal(move_mat);
        }
        Transform { entries: e }
    }
}

/// The rotation matrix of each move.
#[verifier::opaque]
pub open spec fn move_mat(m: Move) -> Mat {
    match m {
        Move::L1 => seq![seq![1, 0, 0], seq![0, 0, 1], seq![0, -1, 0]],
        Move::L2 => seq![seq![1, 0, 0], seq![0, -1, 0], seq![0, 0, -1]],
        Move::L3 => seq![seq![1, 0, 0], seq![0, 0, -1], seq![0, 1, 0]],
        Move::R1 => seq![seq![1, 0, 0], seq![0, 0, -1], seq![0, 1, 0]],
        Move::R2 => seq![seq![1, 0, 0], seq![0, -1, 0], seq![0, 0, -1]],
        Move::R3 => seq![seq![1, 0, 0], seq![0, 0, 1], seq![0, -1, 0]],
        Move::D1 => seq![seq![0, 0, -1], seq![0, 1, 0], seq![1, 0, 0]],
        Move::D2 => seq![seq![-1, 0, 0], seq![0, 1, 0], seq![0, 0, -1]],
        Move::D3 => seq![seq![0, 0, 1], seq![0, 1, 0], seq![-1, 0, 0]],
        Move::U1 => seq![seq![0, 0, 1], seq![0, 1, 0], seq![-1, 0, 0]],
        Move::U2 => seq![seq![-1, 0, 0], seq![0, 1, 0], seq![0, 0, -1]],
        Move::U3 => seq![seq![0, 0, -1], seq![0, 1, 0], seq![1, 0, 0]],
        Move::B1 => seq![seq![0, 1, 0], seq![-1, 0, 0], seq![0, 0, 1]],
        Move::B2 => seq![seq![-1, 0, 0], seq![0, -1, 0], seq![0, 0, 1]],
        Move::B3 => seq![seq![0, -1, 0], seq![1, 0, 0], seq![0, 0, 1]],
        Move::F1 => seq![seq![0, -1, 0], seq![1, 0, 0], seq![0, 0, 1]],
        Move::F2 => seq![seq![-1, 0, 0], seq![0, -1, 0], seq![0, 0, 1]],
        Move::F3 => seq![seq![0, 1, 0], seq![-1, 0, 0], seq![0, 0, 1]],
    }
}

/// The axis whose coordinate the move's face fixes.
pub open spec fn move_axis(m: Move) -> int {
    m.index() / 6
}

/// Which end of the axis the move's face lies at: 0 for the negative end,
/// 1 for the positive end.
pub open spec fn move_sign(m: Move) -> int {
    (m.index() / 3) % 2
}

/// How many quarter turns the move performs: 1, 2 or 3.
pub open spec fn move_quarters(m: Move) -> int {
    m.index() % 3 + 1
}

/// Bit d of a slot index: the 0/1 coordinate of the slot along axis d.
pub open spec fn bit(k: int, d: int) -> int {
    if d == 0 {
        k % 2
    } else if d == 1 {
        (k / 2) % 2
    } else {
        (k / 4) % 2
    }
}

/// The spatial position of a corner slot: each coordinate is -1 or 1.
pub open spec fn slot_pos(s: int) -> Vec3 {
    seq![2 * bit(s, 0) - 1, 2 * bit(s, 1) - 1, 2 * bit(s, 2) - 1]
}

/// The 0/1 index of a corner coordinate.
pub open spec fn coord_index(x: int) -> int {
    (x + 1) / 2
}

/// The slot index of a corner position with coordinates in {-1, 1}.
pub open spec fn pos_slot(v: Vec3) -> int {
    coord_index(v[0]) + 2 * coord_index(v[1]) + 4 * coord_index(v[2])
}

/// Whether a slot lies on the face a move turns.
pub open spec fn on_face(m: Move, s: int) -> bool {
    bit(s, move_axis(m)) == move_sign(m)
}

/// The slot a corner moves to when the move turns its face.
#[verifier::opaque]
pub open spec fn slot_image(m: Move, s: int) -> int {
    pos_slot(m_apply(move_mat(m), slot_pos(s)))
}

/// The slot a corner moves from: the move's slot action has order dividing
/// four, so three applications invert one.
#[verifier::opaque]
pub open spec fn slot_pre(m: Move, s: int) -> int {
    slot_image(m, slot_image(m, slot_image(m, s)))
}

/// All facts about the slot action of one move on one slot of its face,
/// checked by computation below over all moves and slots.
pub open spec fn slot_image_ok(m: Move, s: int) -> bool {
    !on_face(m, s) || {
        &&& 0 <= slot_image(m, s) < 8
        &&& on_face(m, slot_image(m, s))
        &&& 0 <= slot_pre(m, s) < 8
        &&& on_face(m, slot_pre(m, s))
        &&& slot_image(m, slot_pre(m, s)) == s
        &&& slot_pre(m, slot_image(m, s)) == s
    }
}

proof fn lemma_slot_image_l1(s: int)
    requires
        0 <= s < 8,
    ensures
        slot_image_ok(Move::L1, s),
{
    reveal(slot_image);
    reveal(slot_pre);
    reveal(move_mat);
    assert(slot_image_ok(Move::L1, 0) && slot_image_ok(Move::L1, 1) && slot_image_ok(Move::L1, 2) && slot_image_ok(Move::L1, 3) && slot_image_ok(Move::L1, 4) && slot_image_ok(Move::L1, 5) && slot_image_ok(Move::L1, 6) && slot_image_ok(Move::L1, 7));
}

proof fn lemma_slot_image_l2(s: int)
    requires
        0 <= s < 8,
    ensures
        slot_image_ok(Move::L2, s),
{
    reveal(slot_image);
    reveal(slot_pre);
    reveal(move_mat);
    assert(slot_image_ok(Move::L2, 0) && slot_image_ok(Move::L2, 1) && slot_image_ok(Move::L2, 2) && slot_image_ok(Move::L2, 3) && slot_image_ok(Move::L2, 4) && slot_image_ok(Move::L2, 5) && slot_image_ok(Move::L2, 6) && slot_image_ok(Move::L2, 7));
}

proof fn lemma_slot_image_l3(s: int)
    requires
        0 <= s < 8,
    ensures
        slot_image_ok(Move::L3, s),
{
    reveal(slot_image);
    reveal(slot_pre);
    reveal(move_mat);
    assert(slot_image_ok(Move::L3, 0) && slot_image_ok(Move::L3, 1) && slot_image_ok(Move::L3, 2) && slot_image_ok(Move::L3, 3) && slot_image_ok(Move::L3, 4) && slot_image_ok(Move::L3, 5) && slot_image_ok(Move::L3, 6) && slot_image_ok(Move::L3, 7));
}

proof fn lemma_slot_image_r1(s: int)
    requires
        0 <= s < 8,
    ensures
        slot_image_ok(Move::R1, s),
{
    reveal(slot_image);
    reveal(slot_pre);
    reveal(move_mat);
    assert(slot_image_ok(Move::R1, 0) && slot_image_ok(Move::R1, 1) && slot_image_ok(Move::R1, 2) && slot_image_ok(Move::R1, 3) && slot_image_ok(Move::R1, 4) && slot_image_ok(Move::R1, 5) && slot_image_ok(Move::R1, 6) && slot_image_ok(Move::R1, 7));
}

proof fn lemma_slot_image_r2(s: int)
    requires
        0 <= s < 8,
    ensures
        slot_image_ok(Move::R2, s),
{
    reveal(slot_image);
    reveal(slot_pre);
    reveal(move_mat);
    assert(slot_image_ok(Move::R2, 0) && slot_image_ok(Move::R2, 1) && slot_image_ok(Move::R2, 2) && slot_image_ok(Move::R2, 3) && slot_image_ok(Move::R2, 4) && slot_image_ok(Move::R2, 5) && slot_image_ok(Move::R2, 6) && slot_image_ok(Move::R2, 7));
}

proof fn lemma_slot_image_r3(s: int)
    requires
        0 <= s < 8,
    ensures
        slot_image_ok(Move::R3, s),
{
    reveal(slot_image);
    reveal(slot_pre);
    reveal(move_mat);
    assert(slot_image_ok(Move::R3, 0) && slot_image_ok(Move::R3, 1) && slot_image_ok(Move::R3, 2) && slot_image_ok(Move::R3, 3) && slot_image_ok(Move::R3, 4) && slot_image_ok(Move::R3, 5) && slot_image_ok(Move::R3, 6) && slot_image_ok(Move::R3, 7));
}

proof fn lemma_slot_image_d1(s: int)
    requires
        0 <= s < 8,
    ensures
        slot_image_ok(Move::D1, s),
{
    reveal(slot_image);
    reveal(slot_pre);
    reveal(move_mat);
    assert(slot_image_ok(Move::D1, 0) && slot_image_ok(Move::D1, 1) && slot_image_ok(Move::D1, 2) && slot_image_ok(Move::D1, 3) && slot_image_ok(Move::D1, 4) && slot_image_ok(Move::D1, 5) && slot_image_ok(Move::D1, 6) && slot_image_ok(Move::D1, 7));
}

proof fn lemma_slot_image_d2(s: int)
    requires
        0 <= s < 8,
    ensures
        slot_image_ok(Move::D2, s),
{
    reveal(slot_image);
    reveal(slot_pre);
    reveal(move_mat);
    assert(slot_image_ok(Move::D2, 0) && slot_image_ok(Move::D2, 1) && slot_image_ok(Move::D2, 2) && slot_image_ok(Move::D2, 3) && slot_image_ok(Move::D2, 4) && slot_image_ok(Move::D2, 5) && slot_image_ok(Move::D2, 6) && slot_image_ok(Move::D2, 7));
}

proof fn lemma_slot_image_d3(s: int)
    requires
        0 <= s < 8,
    ensures
        slot_image_ok(Move::D3, s),
{
    reveal(slot_image);
    reveal(slot_pre);
    reveal(move_mat);
    assert(slot_image_ok(Move::D3, 0) && slot_image_ok(Move::D3, 1) && slot_image_ok(Move::D3, 2) && slot_image_ok(Move::D3, 3) && slot_image_ok(Move::D3, 4) && slot_image_ok(Move::D3, 5) && slot_image_ok(Move::D3, 6) && slot_image_ok(Move::D3, 7));
}

proof fn lemma_slot_image_u1(s: int)
    requires
        0 <= s < 8,
    ensures
        slot_image_ok(Move::U1, s),
{
    reveal(slot_image);
    reveal(slot_pre);
    reveal(move_mat);
    assert(slot_image_ok(Move::U1, 0) && slot_image_ok(Move::U1, 1) && slot_image_ok(Move::U1, 2) && slot_image_ok(Move::U1, 3) && slot_image_ok(Move::U1, 4) && slot_image_ok(Move::U1, 5) && slot_image_ok(Move::U1, 6) && slot_image_ok(Move::U1, 7));
}

proof fn lemma_slot_image_u2(s: int)
    requires
        0 <= s < 8,
    ensures
        slot_image_ok(Move::U2, s),
{
    reveal(slot_image);
    reveal(slot_pre);
    reveal(move_mat);
    assert(slot_image_ok(Move::U2, 0) && slot_image_ok(Move::U2, 1) && slot_image_ok(Move::U2, 2) && slot_image_ok(Move::U2, 3) && slot_image_ok(Move::U2, 4) && slot_image_ok(Move::U2, 5) && slot_image_ok(Move::U2, 6) && slot_image_ok(Move::U2, 7));
}

proof fn lemma_slot_image_u3(s: int)
    requires
        0 <= s < 8,
    ensures
        slot_image_ok(Move::U3, s),
{
    reveal(slot_image);
    reveal(slot_pre);
    reveal(move_mat);
    assert(slot_image_ok(Move::U3, 0) && slot_image_ok(Move::U3, 1) && slot_image_ok(Move::U3, 2) && slot_image_ok(Move::U3, 3) && slot_image_ok(Move::U3, 4) && slot_image_ok(Move::U3, 5) && slot_image_ok(Move::U3, 6) && slot_image_ok(Move::U3, 7));
}

proof fn lemma_slot_image_b1(s: int)
    requires
        0 <= s < 8,
    ensures
        slot_image_ok(Move::B1, s),
{
    reveal(slot_image);
    reveal(slot_pre);
    reveal(move_mat);
    assert(slot_image_ok(Move::B1, 0) && slot_image_ok(Move::B1, 1) && slot_image_ok(Move::B1, 2) && slot_image_ok(Move::B1, 3) && slot_image_ok(Move::B1, 4) && slot_image_ok(Move::B1, 5) && slot_image_ok(Move::B1, 6) && slot_image_ok(Move::B1, 7));
}

proof fn lemma_slot_image_b2(s: int)
    requires
        0 <= s < 8,
    ensures
        slot_image_ok(Move::B2, s),
{
    reveal(slot_image);
    reveal(slot_pre);
    reveal(move_mat);
    assert(slot_image_ok(Move::B2, 0) && slot_image_ok(Move::B2, 1) && slot_image_ok(Move::B2, 2) && slot_image_ok(Move::B2, 3) && slot_image_ok(Move::B2, 4) && slot_image_ok(Move::B2, 5) && slot_image_ok(Move::B2, 6) && slot_image_ok(Move::B2, 7));
}

proof fn lemma_slot_image_b3(s: int)
    requires
        0 <= s < 8,
    ensures
        slot_image_ok(Move::B3, s),
{
    reveal(slot_image);
    reveal(slot_pre);
    reveal(move_mat);
    assert(slot_image_ok(Move::B3, 0) && slot_image_ok(Move::B3, 1) && slot_image_ok(Move::B3, 2) && slot_image_ok(Move::B3, 3) && slot_image_ok(Move::B3, 4) && slot_image_ok(Move::B3, 5) && slot_image_ok(Move::B3, 6) && slot_image_ok(Move::B3, 7));
}

proof fn lemma_slot_image_f1(s: int)
    requires
        0 <= s < 8,
    ensures
        slot_image_ok(Move::F1, s),
{
    reveal(slot_image);
    reveal(slot_pre);
    reveal(move_mat);
    assert(slot_image_ok(Move::F1, 0) && slot_image_ok(Move::F1, 1) && slot_image_ok(Move::F1, 2) && slot_image_ok(Move::F1, 3) && slot_image_ok(Move::F1, 4) && slot_image_ok(Move::F1, 5) && slot_image_ok(Move::F1, 6) && slot_image_ok(Move::F1, 7));
}

proof fn lemma_slot_image_f2(s: int)
    requires
        0 <= s < 8,
    ensures
        slot_image_ok(Move::F2, s),
{
    reveal(slot_image);
    reveal(slot_pre);
    reveal(move_mat);
    assert(slot_image_ok(Move::F2, 0) && slot_image_ok(Move::F2, 1) && slot_image_ok(Move::F2, 2) && slot_image_ok(Move::F2, 3) && slot_image_ok(Move::F2, 4) && slot_image_ok(Move::F2, 5) && slot_image_ok(Move::F2, 6) && slot_image_ok(Move::F2, 7));
}

proof fn lemma_slot_image_f3(s: int)
    requires
        0 <= s < 8,
    ensures
        slot_image_ok(Move::F3, s),
{
    reveal(slot_image);
    reveal(slot_pre);
    reveal(move_mat);
    assert(slot_image_ok(Move::F3, 0) && slot_image_ok(Move::F3, 1) && slot_image_ok(Move::F3, 2) && slot_image_ok(Move::F3, 3) && slot_image_ok(Move::F3, 4) && slot_image_ok(Move::F3, 5) && slot_image_ok(Move::F3, 6) && slot_image_ok(Move::F3, 7));
}

/// The move's action on the slots of its face is a permutation of that
/// face, inverted by applying it three more times.
pub proof fn lemma_slot_image(m: Move, s: int)
    requires
        0 <= s < 8,
    ensures
        slot_image_ok(m, s),
{
    match m {
        Move::L1 => lemma_slot_image_l1(s),
        Move::L2 => lemma_slot_image_l2(s),
        Move::L3 => lemma_slot_image_l3(s),
        Move::R1 => lemma_slot_image_r1(s),
        Move::R2 => lemma_slot_image_r2(s),
        Move::R3 => lemma_slot_image_r3(s),
        Move::D1 => lemma_slot_image_d1(s),
        Move::D2 => lemma_slot_image_d2(s),
        Move::D3 => lemma_slot_image_d3(s),
        Move::U1 => lemma_slot_image_u1(s),
        Move::U2 => lemma_slot_image_u2(s),
        Move::U3 => lemma_slot_image_u3(s),
        Move::B1 => lemma_slot_image_b1(s),
        Move::B2 => lemma_slot_image_b2(s),
        Move::B3 => lemma_slot_image_b3(s),
        Move::F1 => lemma_slot_image_f1(s),
        Move::F2 => lemma_slot_image_f2(s),
        Move::F3 => lemma_slot_image_f3(s),
    }
}

/// The move's slot action is injective on its face.
pub proof fn lemma_slot_image_injective(m: Move, s1: int, s2: int)
    requires
        0 <= s1 < 8,
        0 <= s2 < 8,
        on_face(m, s1),
        on_face(m, s2),
        slot_image(m, s1) == slot_image(m, s2),
    ensures
        s1 == s2,
{
    lemma_slot_image(m, s1);
    lemma_slot_image(m, s2);
    assert(s1 == slot_pre(m, slot_image(m, s1)));
}

/// Every move matrix is a rotation.
pub proof fn lemma_move_mat_orthogonal(m: Move)
    ensures
        m_orthogonal(move_mat(m)),
{
    reveal(move_mat);
    assert(m_orthogonal(move_mat(m)));
}

/// Every move matrix has determinant 1: moves are proper rotations.
pub proof fn lemma_move_mat_det(m: Move)
    ensures
        m_det(move_mat(m)) == 1,
{
    reveal(move_mat);
    match m {
        Move::L1 => {
            assert(m_det(move_mat(Move::L1)) == 1);
        },
        Move::L2 => {
            assert(m_det(move_mat(Move::L2)) == 1);
        },
        Move::L3 => {
            assert(m_det(move_mat(Move::L3)) == 1);
        },
        Move::R1 => {
            assert(m_det(move_mat(Move::R1)) == 1);
        },
        Move::R2 => {
            assert(m_det(move_mat(Move::R2)) == 1);
        },
        Move::R3 => {
            assert(m_det(move_mat(Move::R3)) == 1);
        },
        Move::D1 => {
            assert(m_det(move_mat(Move::D1)) == 1);
        },
        Move::D2 => {
            assert(m_det(move_mat(Move::D2)) == 1);
        },
        Move::D3 => {
            assert(m_det(move_mat(Move::D3)) == 1);
        },
        Move::U1 => {
            assert(m_det(move_mat(Move::U1)) == 1);
        },
        Move::U2 => {
            assert(m_det(move_mat(Move::U2)) == 1);
        },
        Move::U3 => {
            assert(m_det(move_mat(Move::U3)) == 1);
        },
        Move::B1 => {
            assert(m_det(move_mat(Move::B1)) == 1);
        },
        Move::B2 => {
            assert(m_det(move_mat(Move::B2)) == 1);
        },
        Move::B3 => {
            assert(m_det(move_mat(Move::B3)) == 1);
        },
        Move::F1 => {
            assert(m_det(move_mat(Move::F1)) == 1);
        },
        Move::F2 => {
            assert(m_det(move_mat(Move::F2)) == 1);
        },
        Move::F3 => {
            assert(m_det(move_mat(Move::F3)) == 1);
        },
    }
}

/// The cube: one transform per corner slot. Slot indices encode the slot's
/// coordinates: bit d of the index gives the slot's 0/1 coordinate along
/// axis d, where 0 stands for coordinate -1 and 1 for coordinate 1.
#[derive(Clone, Debug)]
pub struct Cube {
    pub transforms: [Transform; 8],
}

/// Every transform the cube holds is a rotation.
pub open spec fn cube_wf(c: Cube) -> bool {
    forall|s: int| 0 <= s < 8 ==> m_orthogonal(#[trigger] c.transforms[s].mat())
}

/// How one move turns one cube into the next: corners off the turning face
/// keep their transforms; a corner on the face moves to the image slot and
/// picks up the move's rotation.
pub open spec fn cube_move_rel(c: Cube, m: Move, r: Cube) -> bool {
    &&& forall|t: int|
        0 <= t < 8 && !on_face(m, t) ==> #[trigger] r.transforms[t] == c.transforms[t]
    &&& forall|t: int|
        0 <= t < 8 && on_face(m, t) ==> (#[trigger] r.transforms[t].mat()) =~~= m_mul(
            move_mat(m),
            c.transforms[slot_pre(m, t)].mat(),
        )
}

/// A run of moves, applied first to last.
pub open spec fn cube_run_rel(c: Cube, ms: Seq<Move>, r: Cube) -> bool
    decreases ms.len(),
{
    if ms.len() == 0 {
        r == c
    } else {
        exists|mid: Cube| #[trigger] cube_move_rel(c, ms[0], mid) && cube_run_rel(mid, ms.drop_first(), r)
    }
}

/// Coordinate r of the home position of the corner occupying slot s, for
/// a slot holding transform t: the slot's three face normals are pulled
/// back through the inverse (transpose) of t and summed; coordinate r of
/// that sum picks up column r of t.
pub open spec fn extract_coord(t: Mat, s: int, r: int) -> int {
    sm(t[0][r], slot_pos(s)[0]) + sm(t[1][r], slot_pos(s)[1]) + sm(t[2][r], slot_pos(s)[2])
}

/// Which solved corner a slot holding transform t shows: the slot index of
/// the corner's home position.
pub open spec fn extract_pos_t(t: Mat, s: int) -> int {
    coord_index(extract_coord(t, s, 0)) + 2 * coord_index(extract_coord(t, s, 1)) + 4
        * coord_index(extract_coord(t, s, 2))
}

/// Which solved corner occupies slot s of the cube.
pub open spec fn extract_pos_at(c: Cube, s: int) -> int {
    extract_pos_t(c.transforms[s].mat(), s)
}

/// The number of set bits in a 3-bit slot index.
pub open spec fn popcount3(k: int) -> int {
    bit(k, 0) + bit(k, 1) + bit(k, 2)
}

/// The axis of the first nonzero entry of row i.
pub open spec fn row_dir(t: Mat, i: int) -> int {
    if t[i][0] != 0 {
        0
    } else if t[i][1] != 0 {
        1
    } else {
        2
    }
}

/// The twist class of a corner, from the parity of the occupying corner's
/// index and the axis the slot's first face normal pulls back to.
pub open spec fn ori_table(parity: int, axis: int) -> int {
    if parity == 1 {
        axis
    } else if axis == 0 {
        0
    } else if axis == 1 {
        2
    } else {
        1
    }
}

/// The twist a slot holding transform t shows, relative to the occupying
/// corner's home attitude: 0, 1 or 2.
pub open spec fn extract_ori_t(t: Mat, s: int) -> int {
    ori_table(popcount3(extract_pos_t(t, s)) % 2, row_dir(t, 0))
}

/// The twist of the corner occupying slot s of the cube.
pub open spec fn extract_ori_at(c: Cube, s: int) -> int {
    extract_ori_t(c.transforms[s].mat(), s)
}

/// For a rotation the extracted corner index lies in 0..8 and the
/// extracted twist in 0..3; the three home coordinates are -1 or 1.
pub proof fn lemma_extract_t_ranges(t: Mat, s: int)
    requires
        m_orthogonal(t),
        0 <= s < 8,
    ensures
        mag(extract_coord(t, s, 0)) == 1,
        mag(extract_coord(t, s, 1)) == 1,
        mag(extract_coord(t, s, 2)) == 1,
        0 <= extract_pos_t(t, s) < 8,
        0 <= extract_ori_t(t, s) < 3,
{
    let sp = slot_pos(s);
    assert(mag(sp[0]) == 1 && mag(sp[1]) == 1 && mag(sp[2]) == 1);
    lemma_unit_image(t[0][0], t[1][0], t[2][0], sp[0], sp[1], sp[2]);
    lemma_unit_image(t[0][1], t[1][1], t[2][1], sp[0], sp[1], sp[2]);
    lemma_unit_image(t[0][2], t[1][2], t[2][2], sp[0], sp[1], sp[2]);
}

/// For a well-formed cube the extracted corner index lies in 0..8 and the
/// extracted twist in 0..3.
pub proof fn lemma_extract_ranges(c: Cube, s: int)
    requires
        cube_wf(c),
        0 <= s < 8,
    ensures
        0 <= extract_pos_at(c, s) < 8,
        0 <= extract_ori_at(c, s) < 3,
{
    lemma_extract_t_ranges(c.transforms[s].mat(), s);
}

/// Loop invariant of `Cube::sequence`: every slot that is off the turning
/// face, or whose source slot has not been processed yet, still holds its
/// original transform.
pub open spec fn seq_inv_kept(c: Cube, m: Move, out: Cube, s: int) -> bool {
    forall|t: int|
        0 <= t < 8 && (!on_face(m, t) || slot_pre(m, t) >= s) ==> #[trigger] out.transforms[t]
            == c.transforms[t]
}

/// Loop invariant of `Cube::sequence`: every slot whose source slot has
/// been processed holds the source transform composed with the move.
pub open spec fn seq_inv_moved(c: Cube, m: Move, out: Cube, s: int) -> bool {
    forall|t: int|
        0 <= t < 8 && on_face(m, t) && slot_pre(m, t) < s ==> (#[trigger] out.transforms[t].mat())
            =~~= m_mul(move_mat(m), c.transforms[slot_pre(m, t)].mat())
}

proof fn lemma_seq_inv_init(c: Cube, m: Move, out: Cube)
    requires
        out.transforms == c.transforms,
    ensures
        seq_inv_kept(c, m, out, 0),
        seq_inv_moved(c, m, out, 0),
{
    assert forall|t: int| 0 <= t < 8 && on_face(m, t) implies slot_pre(m, t) >= 0 by {
        lemma_slot_image(m, t);
    }
}

proof fn lemma_seq_inv_step_face(c: Cube, m: Move, pre: Cube, post: Cube, s: int, moved: Transform)
    requires
        0 <= s < 8,
        on_face(m, s),
        seq_inv_kept(c, m, pre, s),
        seq_inv_moved(c, m, pre, s),
        post.transforms@ == pre.transforms@.update(slot_image(m, s), moved),
        moved.mat() =~~= m_mul(move_mat(m), c.transforms[s].mat()),
    ensures
        seq_inv_kept(c, m, post, s + 1),
        seq_inv_moved(c, m, post, s + 1),
{
    lemma_slot_image(m, s);
    let t0 = slot_image(m, s);
    assert(slot_pre(m, t0) == s);
    assert forall|t: int|
        0 <= t < 8 && on_face(m, t) && slot_pre(m, t) < s + 1 implies (
    #[trigger] post.transforms[t].mat()) =~~= m_mul(
        move_mat(m),
        c.transforms[slot_pre(m, t)].mat(),
    ) by {
        lemma_slot_image(m, t);
        if t == t0 {
            assert(post.transforms[t] == moved);
        } else {
            assert(slot_pre(m, t) != s);
            assert(post.transforms[t] == pre.transforms[t]);
        }
    }
    assert forall|t: int|
        0 <= t < 8 && (!on_face(m, t) || slot_pre(m, t) >= s + 1) implies #[trigger] post.transforms[t]
        == c.transforms[t] by {
        if on_face(m, t) {
            lemma_slot_image(m, t);
            assert(t != t0);
            assert(post.transforms[t] == pre.transforms[t]);
        } else {
            assert(on_face(m, t0));
            assert(t != t0);
            assert(post.transforms[t] == pre.transforms[t]);
        }
    }
}

proof fn lemma_seq_inv_step_off(c: Cube, m: Move, out: Cube, s: int)
    requires
        0 <= s < 8,
        !on_face(m, s),
        seq_inv_kept(c, m, out, s),
        seq_inv_moved(c, m, out, s),
    ensures
        seq_inv_kept(c, m, out, s + 1),
        seq_inv_moved(c, m, out, s + 1),
{
    assert forall|t: int|
        0 <= t < 8 && on_face(m, t) && slot_pre(m, t) >= s implies slot_pre(m, t) >= s + 1 by {
        lemma_slot_image(m, t);
        assert(on_face(m, slot_pre(m, t)));
    }
}

proof fn lemma_seq_inv_done(c: Cube, m: Move, out: Cube)
    requires
        cube_wf(c),
        seq_inv_kept(c, m, out, 8),
        seq_inv_moved(c, m, out, 8),
    ensures
        cube_move_rel(c, m, out),
        cube_wf(out),
{
    lemma_move_mat_orthogonal(m);
    assert forall|t: int| 0 <= t < 8 && on_face(m, t) implies slot_pre(m, t) < 8 by {
        lemma_slot_image(m, t);
    }
    assert(cube_move_rel(c, m, out));
    assert forall|t: int| 0 <= t < 8 implies m_orthogonal(#[trigger] out.transforms[t].mat()) by {
        if on_face(m, t) {
            lemma_slot_image(m, t);
            lemma_mul_orthogonal(move_mat(m), c.transforms[slot_pre(m, t)].mat());
        }
    }
}

impl Cube {
    /// The cube with every corner in its solved attitude.
    pub fn solved() -> (r: Cube)
        ensures
            cube_wf(r),
            forall|s: int| 0 <= s < 8 ==> (#[trigger] r.transforms[s].mat()) =~~= m_id(),
    {
        let t = Transform::identity();
        let r = Cube { transforms: [t, t, t, t, t, t, t, t] };
        proof {
            assert forall|s: int| 0 <= s < 8 implies (#[trigger] r.transforms[s].mat()) =~~= m_id()
                && m_orthogonal(r.transforms[s].mat()) by {
                assert(r.transforms[s] == t);
            }
        }
        r
    }

    /// Derives the position and orientation vectors of this cube: entry s
    /// of the first array names the solved corner occupying slot s, entry s
    /// of the second its twist (0, 1 or 2).
    pub fn positions_orientations(&self) -> (r: ([u8; 8], [u8; 8]))
        requires
            cube_wf(*self),
        ensures
            forall|k: int| 0 <= k < 8 ==> r.0[k] as int == extract_pos_at(*self, k),
            forall|k: int| 0 <= k < 8 ==> r.1[k] as int == extract_ori_at(*self, k),
    {
        let mut ps = [0u8; 8];
        let mut os = [0u8; 8];
        let mut s: usize = 0;
        while s < 8
            invariant
                s <= 8,
                cube_wf(*self),
                forall|k: int| 0 <= k < s ==> ps[k] as int == extract_pos_at(*self, k),
                forall|k: int| 0 <= k < s ==> os[k] as int == extract_ori_at(*self, k),
            decreases 8 - s,
        {
            let (p, o) = extract_slot(&self.transforms[s], s);
            ps[s] = p;
            os[s] = o;
            s += 1;
        }
        (ps, os)
    }

    /// The transform of the corner slot at the given position; every
    /// coordinate must be -1 or 1.
    pub fn transform(&self, position: [i32; 3]) -> (r: &Transform)
        requires
            mag(position[0] as int) == 1,
            mag(position[1] as int) == 1,
            mag(position[2] as int) == 1,
        ensures
            *r == self.transforms[pos_slot(
                seq![position[0] as int, position[1] as int, position[2] as int],
            )],
    {
        let i = (1 + position[0]) / 2;
        let j = (1 + position[1]) / 2;
        let k = (1 + position[2]) / 2;
        &self.transforms[(i + 2 * j + 4 * k) as usize]
    }

    /// The cube after one move: the four corners on the move's face travel
    /// to their image slots, composing their transforms with the move's
    /// rotation; the other four corners stay put.
    #[verifier::rlimit(100)]
    pub fn sequence(&self, m: Move) -> (r: Cube)
        requires
            cube_wf(*self),
        ensures
            cube_move_rel(*self, m, r),
            cube_wf(r),
    {
        let mut out = Cube { transforms: self.transforms };
        let mt = m.transform();
        let idx = m.to_index();
        let axis = (idx / 6) as usize;
        let sign = ((idx / 3) % 2) as usize;
        proof {
            assert(axis as int == move_axis(m));
            assert(sign as int == move_sign(m));
            lemma_seq_inv_init(*self, m, out);
        }
        let mut s: usize = 0;
        while s < 8
            invariant
                s <= 8,
                cube_wf(*self),
                axis as int == move_axis(m),
                sign as int == move_sign(m),
                axis < 3,
                sign < 2,
                mt.mat() =~~= move_mat(m),
                m_orthogonal(move_mat(m)),
                seq_inv_kept(*self, m, out, s as int),
                seq_inv_moved(*self, m, out, s as int),
            decreases 8 - s,
        {
            let b = if axis == 0 {
                s % 2
            } else if axis == 1 {
                (s / 2) % 2
            } else {
                (s / 4) % 2
            };
            proof {
                assert(b as int == bit(s as int, axis as int));
            }
            if b == sign {
                let ei = image_slot(&mt, Ghost(m), s);
                let ghost pre = out;
                let moved = self.transforms[s].sequence(mt);
                out.transforms[ei] = moved;
                proof {
                    assert(out.transforms@ =~= pre.transforms@.update(ei as int, moved));
                    lemma_seq_inv_step_face(*self, m, pre, out, s as int, moved);
                }
            } else {
                proof {
                    lemma_seq_inv_step_off(*self, m, out, s as int);
                }
            }
            s += 1;
        }
        proof {
            lemma_seq_inv_done(*self, m, out);
        }
        out
    }

    /// The cube after a run of moves, applied first to last.
    pub fn sequence_moves(&self, moves: &Vec<Move>) -> (r: Cube)
        requires
            cube_wf(*self),
        ensures
            cube_run_rel(*self, moves@, r),
            cube_wf(r),
    {
        let mut transformed = Cube { transforms: self.transforms };
        let mut i: usize = 0;
        proof {
            assert(transformed == *self);
        }
        while i < moves.len()
            invariant
                i <= moves.len(),
                cube_wf(transformed),
                cube_run_rel(*self, moves@.take(i as int), transformed),
            decreases moves.len() - i,
        {
            let ghost pre = transformed;
            transformed = transformed.sequence(moves[i]);
            proof {
                lemma_cube_run_snoc(*self, moves@.take(i as int), pre, moves@[i as int], transformed);
                assert(moves@.take(i as int).push(moves@[i as int]) =~= moves@.take(i + 1));
            }
            i += 1;
        }
        proof {
            assert(moves@.take(moves@.len() as int) =~= moves@);
        }
        transformed
    }
}

/// Computes the slot a corner at slot s travels to under the given move
/// transform.
#[verifier::rlimit(100)]
fn image_slot(mt: &Transform, m: Ghost<Move>, s: usize) -> (r: usize)
    requires
        s < 8,
        mt.mat() =~~= move_mat(m@),
    ensures
        r as int == slot_image(m@, s as int),
        r < 8,
{
    proof {
        lemma_move_mat_orthogonal(m@);
    }
    let sp: [i32; 3] = [
        2 * ((s as i32) % 2) - 1,
        2 * (((s as i32) / 2) % 2) - 1,
        2 * (((s as i32) / 4) % 2) - 1,
    ];
    proof {
        assert(seq![sp[0] as int, sp[1] as int, sp[2] as int] =~= slot_pos(s as int));
        let mm = move_mat(m@);
        lemma_unit_image(mm[0][0], mm[0][1], mm[0][2], sp[0] as int, sp[1] as int, sp[2] as int);
        lemma_unit_image(mm[1][0], mm[1][1], mm[1][2], sp[0] as int, sp[1] as int, sp[2] as int);
        lemma_unit_image(mm[2][0], mm[2][1], mm[2][2], sp[0] as int, sp[1] as int, sp[2] as int);
    }
    let end = mt.apply(&sp);
    let ei = ((end[0] + 1) / 2 + 2 * ((end[1] + 1) / 2) + 4 * ((end[2] + 1) / 2)) as usize;
    proof {
        reveal(slot_image);
        assert(m_apply(mt.mat(), seq![sp[0] as int, sp[1] as int, sp[2] as int]) =~= m_apply(
            move_mat(m@),
            slot_pos(s as int),
        ));
        assert(ei as int == slot_image(m@, s as int));
    }
    ei
}

/// Derives the occupying corner and its twist for one slot.
#[verifier::rlimit(100)]
fn extract_slot(tr: &Transform, s: usize) -> (r: (u8, u8))
    requires
        s < 8,
        m_orthogonal(tr.mat()),
    ensures
        r.0 as int == extract_pos_t(tr.mat(), s as int),
        r.1 as int == extract_ori_t(tr.mat(), s as int),
{
    let ghost tm = tr.mat();
    proof {
        lemma_transpose_orthogonal(tm);
    }
    let inv = tr.inverse();
    let sx = 2 * ((s as i32) % 2) - 1;
    let sy = 2 * (((s as i32) / 2) % 2) - 1;
    let sz = 2 * (((s as i32) / 4) % 2) - 1;
    proof {
        assert(sx as int == slot_pos(s as int)[0]);
        assert(sy as int == slot_pos(s as int)[1]);
        assert(sz as int == slot_pos(s as int)[2]);
    }
    let y0 = inv.apply(&[sx, 0, 0]);
    let y1 = inv.apply(&[0, sy, 0]);
    let y2 = inv.apply(&[0, 0, sz]);
    proof {
        assert(y0[0] as int == sm(tm[0][0], sx as int));
        assert(y0[1] as int == sm(tm[0][1], sx as int));
        assert(y0[2] as int == sm(tm[0][2], sx as int));
        assert(y1[0] as int == sm(tm[1][0], sy as int));
        assert(y1[1] as int == sm(tm[1][1], sy as int));
        assert(y1[2] as int == sm(tm[1][2], sy as int));
        assert(y2[0] as int == sm(tm[2][0], sz as int));
        assert(y2[1] as int == sm(tm[2][1], sz as int));
        assert(y2[2] as int == sm(tm[2][2], sz as int));
        lemma_extract_t_ranges(tm, s as int);
    }
    let px = y0[0] + y1[0] + y2[0];
    let py = y0[1] + y1[1] + y2[1];
    let pz = y0[2] + y1[2] + y2[2];
    let si = ((px + 1) / 2 + 2 * ((py + 1) / 2) + 4 * ((pz + 1) / 2)) as usize;
    proof {
        assert(px as int == extract_coord(tm, s as int, 0));
        assert(py as int == extract_coord(tm, s as int, 1));
        assert(pz as int == extract_coord(tm, s as int, 2));
        assert(si as int == extract_pos_t(tm, s as int));
    }
    let dir = vector_direction_index(&y0);
    let pbit = (si % 2 + (si / 2) % 2 + (si / 4) % 2) % 2;
    let ori = if pbit == 1 {
        dir
    } else if dir == 0 {
        0
    } else if dir == 1 {
        2
    } else {
        1
    };
    proof {
        assert(dir as int == row_dir(tm, 0));
        assert(pbit as int == popcount3(si as int) % 2);
        assert(ori as int == extract_ori_t(tm, s as int));
    }
    (si as u8, ori as u8)
}

/// Extending a run of moves by one move extends the run relation.
pub proof fn lemma_cube_run_snoc(c: Cube, ms: Seq<Move>, mid: Cube, m: Move, r: Cube)
    requires
        cube_run_rel(c, ms, mid),
        cube_move_rel(mid, m, r),
    ensures
        cube_run_rel(c, ms.push(m), r),
    decreases ms.len(),
{
    if ms.len() == 0 {
        assert(ms.push(m)[0] == m);
        assert(ms.push(m).drop_first() =~= Seq::<Move>::empty());
        assert(cube_run_rel(r, Seq::<Move>::empty(), r));
    } else {
        let mid1 = choose|mid1: Cube| #[trigger] cube_move_rel(c, ms[0], mid1) && cube_run_rel(
            mid1,
            ms.drop_first(),
            mid,
        );
        lemma_cube_run_snoc(mid1, ms.drop_first(), mid, m, r);
        assert(ms.push(m)[0] == ms[0]);
        assert(ms.push(m).drop_first() =~= ms.drop_first().push(m));
        assert(cube_move_rel(c, ms.push(m)[0], mid1));
    }
}

/// Runs concatenate: running one sequence of moves and then another is one
/// run of their concatenation.
pub proof fn lemma_cube_run_append(c: Cube, ms1: Seq<Move>, mid: Cube, ms2: Seq<Move>, r: Cube)
    requires
        cube_run_rel(c, ms1, mid),
        cube_run_rel(mid, ms2, r),
    ensures
        cube_run_rel(c, ms1 + ms2, r),
    decreases ms2.len(),
{
    if ms2.len() == 0 {
        assert(ms1 + ms2 =~= ms1);
    } else {
        let mid2 = choose|mid2: Cube| #[trigger] cube_move_rel(mid, ms2[0], mid2) && cube_run_rel(
            mid2,
            ms2.drop_first(),
            r,
        );
        lemma_cube_run_snoc(c, ms1, mid, ms2[0], mid2);
        lemma_cube_run_append(c, ms1.push(ms2[0]), mid2, ms2.drop_first(), r);
        assert(ms1.push(ms2[0]) + ms2.drop_first() =~= ms1 + ms2);
    }
}

/// An ordered, finite sequence of moves; concatenation builds a full
/// solution from sub-macros.
#[derive(Clone, Debug)]
pub struct Macro {
    pub moves: Vec<Move>,
}

impl Macro {
    /// The moves of this macro, in order.
    pub fn move_iter(&self) -> (r: &Vec<Move>)
        ensures
            r@ == self.moves@,
    {
        &self.moves
    }

    /// The empty macro.
    pub fn identity() -> (r: Macro)
        ensures
            r.moves@ =~= Seq::<Move>::empty(),
    {
        Macro { moves: Vec::new() }
    }
}

/// The axis of the first nonzero coordinate of a vector.
pub open spec fn dir3(v: Vec3) -> int {
    if v[0] != 0 {
        0
    } else if v[1] != 0 {
        1
    } else {
        2
    }
}

/// The axis of the first nonzero coordinate; the vector must have one.
pub fn vector_direction_index(vector: &[i32; 3]) -> (r: usize)
    requires
        vector[0] != 0 || vector[1] != 0 || vector[2] != 0,
    ensures
        r as int == dir3(seq![vector[0] as int, vector[1] as int, vector[2] as int]),
        r < 3,
{
    if vector[0] != 0 {
        0
    } else if vector[1] != 0 {
        1
    } else {
        2
    }
}


} // verus!
