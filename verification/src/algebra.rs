//! Algebraic facts about the matrix product.

use vstd::prelude::*;
use crate::grid::{dot, lemma_position, lemma_product_at, product, Grid};

verus! {

/// The sum over `l < l_len` of `(sum over k < k_len of a[i,k] * b[k,l]) * c[l,j]`.
pub open spec fn sum_rows_first(
    a: Grid,
    b: Grid,
    c: Grid,
    i: int,
    j: int,
    k_len: nat,
    l_len: nat,
) -> int
    decreases l_len,
{
    if l_len == 0 {
        0
    } else {
        sum_rows_first(a, b, c, i, j, k_len, (l_len - 1) as nat) + dot(a, b, i, l_len - 1, k_len)
            * c.at(l_len - 1, j)
    }
}

/// The sum over `k < k_len` of `a[i,k] * (sum over l < l_len of b[k,l] * c[l,j])`.
pub open spec fn sum_cols_first(
    a: Grid,
    b: Grid,
    c: Grid,
    i: int,
    j: int,
    k_len: nat,
    l_len: nat,
) -> int
    decreases k_len,
{
    if k_len == 0 {
        0
    } else {
        sum_cols_first(a, b, c, i, j, (k_len - 1) as nat, l_len) + a.at(i, k_len - 1) * dot(
            b,
            c,
            k_len - 1,
            j,
            l_len,
        )
    }
}

/// Taking one more term of every inner sum adds one term of the other
/// order of summation.
proof fn lemma_rows_first_step(a: Grid, b: Grid, c: Grid, i: int, j: int, k: nat, l_len: nat)
    ensures
        sum_rows_first(a, b, c, i, j, k + 1, l_len) == sum_rows_first(a, b, c, i, j, k, l_len)
            + a.at(i, k as int) * dot(b, c, k as int, j, l_len),
    decreases l_len,
{
    if l_len > 0 {
        let l = (l_len - 1) as nat;
        lemma_rows_first_step(a, b, c, i, j, k, l);
        let x = a.at(i, k as int);
        let y = b.at(k as int, l as int);
        let z = c.at(l as int, j);
        let d = dot(a, b, i, l as int, k);
        let e = dot(b, c, k as int, j, l);
        assert(dot(a, b, i, l as int, k + 1) == d + x * y);
        assert(dot(b, c, k as int, j, l_len) == e + y * z);
        assert((d + x * y) * z + x * e == d * z + x * (e + y * z)) by (nonlinear_arith);
    }
}

/// The two orders of summation give the same total.
pub proof fn lemma_sums_agree(a: Grid, b: Grid, c: Grid, i: int, j: int, k_len: nat, l_len: nat)
    ensures
        sum_rows_first(a, b, c, i, j, k_len, l_len) == sum_cols_first(a, b, c, i, j, k_len, l_len),
    decreases k_len, l_len,
{
    if k_len == 0 {
        if l_len > 0 {
            lemma_sums_agree(a, b, c, i, j, k_len, (l_len - 1) as nat);
        }
    } else {
        let k = (k_len - 1) as nat;
        lemma_sums_agree(a, b, c, i, j, k, l_len);
        lemma_rows_first_step(a, b, c, i, j, k, l_len);
    }
}

/// A cell of `(a * b) * c`, summed over the first `l_len` columns of `b`.
proof fn lemma_left_cell(a: Grid, b: Grid, c: Grid, i: int, j: int, l_len: nat)
    requires
        0 <= i < a.rows,
        l_len <= b.cols,
    ensures
        dot(product(a, b), c, i, j, l_len) == sum_rows_first(a, b, c, i, j, a.cols, l_len),
    decreases l_len,
{
    if l_len > 0 {
        lemma_left_cell(a, b, c, i, j, (l_len - 1) as nat);
        lemma_product_at(a, b, i, l_len - 1);
    }
}

/// A cell of `a * (b * c)`, summed over the first `k_len` rows of `b`.
proof fn lemma_right_cell(a: Grid, b: Grid, c: Grid, i: int, j: int, k_len: nat)
    requires
        0 <= j < c.cols,
        k_len <= b.rows,
    ensures
        dot(a, product(b, c), i, j, k_len) == sum_cols_first(a, b, c, i, j, k_len, b.cols),
    decreases k_len,
{
    if k_len > 0 {
        lemma_right_cell(a, b, c, i, j, (k_len - 1) as nat);
        lemma_product_at(b, c, k_len - 1, j);
    }
}

/// The matrix product is associative: for operands whose inner dimensions
/// agree, `(a * b) * c` and `a * (b * c)` are the same matrix.
pub proof fn lemma_product_associative(a: Grid, b: Grid, c: Grid)
    requires
        a.cols == b.rows,
        b.cols == c.rows,
    ensures
        product(product(a, b), c) == product(a, product(b, c)),
{
    let left = product(product(a, b), c);
    let right = product(a, product(b, c));
    assert forall|p: int| 0 <= p < left.cells.len() implies left.cells[p] == right.cells[p] by {
        lemma_position(a.rows, c.cols, p);
        let i = p / (c.cols as int);
        let j = p % (c.cols as int);
        lemma_left_cell(a, b, c, i, j, b.cols);
        lemma_right_cell(a, b, c, i, j, b.rows);
        lemma_sums_agree(a, b, c, i, j, a.cols, b.cols);
    }
    assert(left.cells =~= right.cells);
}

} // verus!
