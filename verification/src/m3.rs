use vstd::prelude::*;

use crate::maths_utils::{div_trunc, fixed_mul, FP_MAX, FP_SCALE};

verus! {

/// A 3x3 matrix as nine fixed-point values in column-major order:
/// entry (row r, column c) sits at index `c * 3 + r`.
pub type M3x3 = Vec<i64>;

/// Entry (r, c) of the product of two column-major 3x3 matrices whose entries
/// are fixed-point values: each elementary product is rescaled by `FP_SCALE`
/// with truncation, and the three rescaled products are summed.
pub open spec fn mult3x3_entry(a: Seq<i64>, b: Seq<i64>, r: int, c: int) -> int {
    div_trunc(a[0 * 3 + r] as int * b[c * 3 + 0] as int, FP_SCALE as int) + div_trunc(
        a[1 * 3 + r] as int * b[c * 3 + 1] as int,
        FP_SCALE as int,
    ) + div_trunc(a[2 * 3 + r] as int * b[c * 3 + 2] as int, FP_SCALE as int)
}

/// All entries of a matrix lie within the fixed-point working range.
pub open spec fn m3_bounded(a: Seq<i64>) -> bool {
    forall|i: int| 0 <= i < a.len() ==> -FP_MAX <= #[trigger] a[i] <= FP_MAX
}

/// Multiply two 3x3 fixed-point matrices.
pub fn mult3x3(a: &Vec<i64>, b: &Vec<i64>) -> (r: M3x3)
    requires
        a@.len() == 9,
        b@.len() == 9,
        m3_bounded(a@),
        m3_bounded(b@),
    ensures
        r@.len() == 9,
        forall|row: int, col: int|
            0 <= row < 3 && 0 <= col < 3 ==> #[trigger] r@[col * 3 + row] == mult3x3_entry(
                a@,
                b@,
                row,
                col,
            ),
{
    let mut out: Vec<i64> = Vec::new();
    let mut col: usize = 0;
    while col < 3
        invariant
            col <= 3,
            a@.len() == 9,
            b@.len() == 9,
            m3_bounded(a@),
            m3_bounded(b@),
            out@.len() == col * 3,
            forall|row: int, c: int|
                0 <= row < 3 && 0 <= c < col ==> #[trigger] out@[c * 3 + row] == mult3x3_entry(
                    a@,
                    b@,
                    row,
                    c,
                ),
        decreases 3 - col,
    {
        let mut row: usize = 0;
        while row < 3
            invariant
                col < 3,
                row <= 3,
                a@.len() == 9,
                b@.len() == 9,
                m3_bounded(a@),
                m3_bounded(b@),
                out@.len() == col * 3 + row,
                forall|rr: int, c: int|
                    0 <= rr < 3 && 0 <= c < col ==> #[trigger] out@[c * 3 + rr] == mult3x3_entry(
                        a@,
                        b@,
                        rr,
                        c,
                    ),
                forall|rr: int|
                    0 <= rr < row ==> #[trigger] out@[col * 3 + rr] == mult3x3_entry(
                        a@,
                        b@,
                        rr,
                        col as int,
                    ),
            decreases 3 - row,
        {
            let t0 = fixed_mul(a[row], b[col * 3]);
            let t1 = fixed_mul(a[3 + row], b[col * 3 + 1]);
            let t2 = fixed_mul(a[6 + row], b[col * 3 + 2]);
            out.push(t0 + t1 + t2);
            row = row + 1;
        }
        col = col + 1;
    }
    out
}

/// The 3x3 zero matrix.
pub fn zero() -> (r: M3x3)
    ensures
        r@.len() == 9,
        forall|i: int| 0 <= i < 9 ==> #[trigger] r@[i] == 0,
{
    let mut out: Vec<i64> = Vec::new();
    let mut i: usize = 0;
    while i < 9
        invariant
            i <= 9,
            out@.len() == i,
            forall|j: int| 0 <= j < i ==> #[trigger] out@[j] == 0,
        decreases 9 - i,
    {
        out.push(0);
        i = i + 1;
    }
    out
}

/// A 2D homogeneous translation by (dx, dy): identity with the translation in
/// the last column.
pub fn translation(dx: i64, dy: i64) -> (r: M3x3)
    ensures
        r@.len() == 9,
        r@[0] == FP_SCALE && r@[1] == 0 && r@[2] == 0,
        r@[3] == 0 && r@[4] == FP_SCALE && r@[5] == 0,
        r@[6] == dx && r@[7] == dy && r@[8] == FP_SCALE,
{
    let mut out: Vec<i64> = Vec::new();
    out.push(FP_SCALE);
    out.push(0);
    out.push(0);
    out.push(0);
    out.push(FP_SCALE);
    out.push(0);
    out.push(dx);
    out.push(dy);
    out.push(FP_SCALE);
    out
}

/// A 2D homogeneous non-uniform scaling by (dx, dy).
pub fn scale(dx: i64, dy: i64) -> (r: M3x3)
    ensures
        r@.len() == 9,
        r@[0] == dx && r@[1] == 0 && r@[2] == 0,
        r@[3] == 0 && r@[4] == dy && r@[5] == 0,
        r@[6] == 0 && r@[7] == 0 && r@[8] == FP_SCALE,
{
    let mut out: Vec<i64> = Vec::new();
    out.push(dx);
    out.push(0);
    out.push(0);
    out.push(0);
    out.push(dy);
    out.push(0);
    out.push(0);
    out.push(0);
    out.push(FP_SCALE);
    out
}

/// The 3x3 identity matrix.
pub fn id() -> (r: M3x3)
    ensures
        r@.len() == 9,
        forall|row: int, col: int|
            0 <= row < 3 && 0 <= col < 3 ==> #[trigger] r@[col * 3 + row] == if row == col {
                FP_SCALE as int
            } else {
                0
            },
{
    let r = scale(FP_SCALE, FP_SCALE);
    r
}

} // verus!
