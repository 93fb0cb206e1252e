//! The mathematical model of a matrix: a shape and a row-major sequence of
//! integers, with the matrix product defined on it.

use vstd::prelude::*;
use vstd::arithmetic::div_mod::{
    lemma_div_pos_is_pos, lemma_fundamental_div_mod, lemma_fundamental_div_mod_converse,
    lemma_mod_bound,
};
use vstd::arithmetic::mul::{lemma_mul_inequality, lemma_mul_is_distributive_add_other_way};
use crate::element::Element;

verus! {

/// A rectangular table of integers, stored row by row.
pub struct Grid {
    pub rows: nat,
    pub cols: nat,
    pub cells: Seq<int>,
}

impl Grid {
    /// The table holds exactly one cell for each position of its shape.
    pub open spec fn well_formed(self) -> bool {
        self.cells.len() == self.rows * self.cols
    }

    /// The cell in row `i` and column `j`.
    pub open spec fn at(self, i: int, j: int) -> int {
        self.cells[i * self.cols + j]
    }

    /// No cell is larger than `bound` in absolute value.
    pub open spec fn bounded(self, bound: nat) -> bool {
        forall|p: int| 0 <= p < self.cells.len() ==> -bound <= #[trigger] self.cells[p] <= bound
    }
}

/// The sum of `a[i, k] * b[k, j]` over the first `n` values of `k`.
pub open spec fn dot(a: Grid, b: Grid, i: int, j: int, n: nat) -> int
    decreases n,
{
    if n == 0 {
        0
    } else {
        dot(a, b, i, j, (n - 1) as nat) + a.at(i, n - 1) * b.at(n - 1, j)
    }
}

/// The matrix product: cell `(i, j)` is the dot product of row `i` of `a`
/// with column `j` of `b`.
pub open spec fn product(a: Grid, b: Grid) -> Grid {
    Grid {
        rows: a.rows,
        cols: b.cols,
        cells: Seq::new(
            a.rows * b.cols,
            |p: int| dot(a, b, p / (b.cols as int), p % (b.cols as int), a.cols),
        ),
    }
}

/// Step `k` of the accumulation of cell `(i, j)` stays within the element
/// type: both the term `a[i, k] * b[k, j]` and the running sum that
/// includes it are representable.
pub open spec fn step_fits<T: Element>(a: Grid, b: Grid, i: int, j: int, k: int) -> bool {
    &&& T::representable(a.at(i, k) * b.at(k, j))
    &&& T::representable(dot(a, b, i, j, (k + 1) as nat))
}

/// Every step of every cell of the product of `a` and `b` stays within the
/// element type `T`.
pub open spec fn product_fits<T: Element>(a: Grid, b: Grid) -> bool {
    forall|i: int, j: int, k: int|
        0 <= i < a.rows && 0 <= j < b.cols && 0 <= k < a.cols ==> #[trigger] step_fits::<T>(
            a,
            b,
            i,
            j,
            k,
        )
}

/// Row-major addressing: position `(i, j)` of a table with `cols` columns
/// and `rows` rows lies at a flat index inside the table, and the flat index
/// determines the position.
pub proof fn lemma_flat_index(rows: nat, cols: nat, i: int, j: int)
    requires
        0 <= i < rows,
        0 <= j < cols,
    ensures
        0 <= i * cols,
        i * cols + j < rows * cols,
        (i * cols + j) / (cols as int) == i,
        (i * cols + j) % (cols as int) == j,
{
    assert(i * cols + j < rows * cols) by {
        lemma_mul_inequality(i + 1, rows as int, cols as int);
        lemma_mul_is_distributive_add_other_way(cols as int, i, 1);
    }
    assert(0 <= i * cols) by (nonlinear_arith)
        requires
            0 <= i,
            0 <= cols,
    ;
    lemma_fundamental_div_mod_converse(i * cols + j, cols as int, i, j);
}

/// A flat index inside a table of `rows` by `cols` names a row and a column
/// inside it.
pub proof fn lemma_position(rows: nat, cols: nat, p: int)
    requires
        0 <= p < rows * cols,
    ensures
        0 <= p / (cols as int) < rows,
        0 <= p % (cols as int) < cols,
{
    assert(cols > 0) by (nonlinear_arith)
        requires
            0 <= p < rows * cols,
    ;
    let c = cols as int;
    lemma_fundamental_div_mod(p, c);
    lemma_mod_bound(p, c);
    lemma_div_pos_is_pos(p, c);
    assert(p / c < rows) by (nonlinear_arith)
        requires
            p == c * (p / c) + p % c,
            0 <= p % c,
            p < rows * c,
            c > 0,
    ;
}

/// The cell of a product at an in-range position is the full dot product of
/// the row and the column that meet there.
pub proof fn lemma_product_at(a: Grid, b: Grid, i: int, j: int)
    requires
        0 <= i < a.rows,
        0 <= j < b.cols,
    ensures
        product(a, b).at(i, j) == dot(a, b, i, j, a.cols),
        product(a, b).well_formed(),
{
    lemma_flat_index(a.rows, b.cols, i, j);
}

/// A partial dot product of `n` terms over cells bounded by `bound` is
/// bounded by `n * bound * bound`.
pub proof fn lemma_dot_bounded(a: Grid, b: Grid, i: int, j: int, n: nat, bound: nat)
    requires
        a.well_formed(),
        b.well_formed(),
        a.cols == b.rows,
        0 <= i < a.rows,
        0 <= j < b.cols,
        n <= a.cols,
        a.bounded(bound),
        b.bounded(bound),
    ensures
        -(n * (bound * bound)) <= dot(a, b, i, j, n) <= n * (bound * bound),
    decreases n,
{
    if n > 0 {
        lemma_dot_bounded(a, b, i, j, (n - 1) as nat, bound);
        lemma_flat_index(a.rows, a.cols, i, n - 1);
        lemma_flat_index(b.rows, b.cols, n - 1, j);
        let x = a.at(i, n - 1);
        let y = b.at(n - 1, j);
        let m = bound as int;
        assert(-(m * m) <= x * y <= m * m) by (nonlinear_arith)
            requires
                -m <= x <= m,
                -m <= y <= m,
        ;
        assert(n * (m * m) == (n - 1) * (m * m) + m * m) by (nonlinear_arith);
    } else {
        assert(0 * (bound * bound) == 0);
    }
}

/// A sufficient condition for a product to stay within the element type:
/// the cells of both operands are bounded by `bound`, and the type
/// represents every integer up to `a.cols * bound * bound` in absolute
/// value.
pub proof fn lemma_bounded_product_fits<T: Element>(a: Grid, b: Grid, bound: nat)
    requires
        a.well_formed(),
        b.well_formed(),
        a.cols == b.rows,
        a.bounded(bound),
        b.bounded(bound),
        forall|v: int|
            -(a.cols * (bound * bound)) <= v <= a.cols * (bound * bound) ==> T::representable(v),
    ensures
        product_fits::<T>(a, b),
{
    assert forall|i: int, j: int, k: int|
        0 <= i < a.rows && 0 <= j < b.cols && 0 <= k < a.cols implies #[trigger] step_fits::<T>(
        a,
        b,
        i,
        j,
        k,
    ) by {
        let m = bound as int;
        let limit = a.cols * (m * m);
        lemma_dot_bounded(a, b, i, j, k as nat, bound);
        lemma_dot_bounded(a, b, i, j, (k + 1) as nat, bound);
        assert(0 <= m * m) by (nonlinear_arith);
        assert((k + 1) * (m * m) <= limit) by (nonlinear_arith)
            requires
                k + 1 <= a.cols,
                0 <= m * m,
                limit == a.cols * (m * m),
        ;
        assert(m * m <= (k + 1) * (m * m)) by (nonlinear_arith)
            requires
                0 <= k,
                0 <= m * m,
        ;
        let term = a.at(i, k) * b.at(k, j);
        assert(term == dot(a, b, i, j, (k + 1) as nat) - dot(a, b, i, j, k as nat));
        lemma_flat_index(a.rows, a.cols, i, k);
        lemma_flat_index(b.rows, b.cols, k, j);
        assert(-(m * m) <= term <= m * m) by (nonlinear_arith)
            requires
                term == a.at(i, k) * b.at(k, j),
                -m <= a.at(i, k) <= m,
                -m <= b.at(k, j) <= m,
        ;
        assert(T::representable(term));
        assert(T::representable(dot(a, b, i, j, (k + 1) as nat)));
    }
}

} // verus!
