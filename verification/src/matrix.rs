//! The matrix type and its product.

use vstd::prelude::*;
use crate::element::Element;
use crate::decimal::render_unsigned;
use crate::grid::{dot, lemma_flat_index, product, product_fits, step_fits, Grid};
use crate::text::{
    debug_text, display_text, join, lemma_join_push, mismatch_text, row_blocks, row_cells,
    row_text, shape_text,
};

verus! {

/// A dense matrix of fixed shape that owns its elements, stored row by row:
/// the element in row `i` and column `j` lies at flat index `i * cols + j`.
pub struct Matrix<T: Element> {
    rows: usize,
    cols: usize,
    data: Vec<T>,
}

/// Why a matrix operation was refused.
#[derive(Debug, Clone, Copy, PartialEq, Eq, Structural)]
pub enum MatrixError {
    /// The left operand's column count differs from the right operand's
    /// row count. The four numbers are the shapes of both operands.
    DimensionMismatch { a_rows: usize, a_cols: usize, b_rows: usize, b_cols: usize },
    /// A matrix of `rows` rows and `cols` columns was asked for over `len`
    /// elements, which is not `rows * cols`.
    ShapeMismatch { rows: usize, cols: usize, len: usize },
}

impl MatrixError {
    /// What `message` says of the error.
    pub open spec fn text(&self) -> Seq<char> {
        match *self {
            MatrixError::DimensionMismatch { a_rows, a_cols, b_rows, b_cols } => mismatch_text(
                a_rows as nat,
                a_cols as nat,
                b_rows as nat,
                b_cols as nat,
            ),
            MatrixError::ShapeMismatch { rows, cols, len } => shape_text(
                rows as nat,
                cols as nat,
                len as nat,
            ),
        }
    }

    /// The report of the error in words.
    pub fn message(&self) -> (text: String)
        ensures
            text@ == self.text(),
    {
        match self {
            MatrixError::ShapeMismatch { rows, cols, len } => {
                let mut text = String::from_str("Cannot build a ");
                text.append(render_unsigned(*rows as u128).as_str());
                text.append("x");
                text.append(render_unsigned(*cols as u128).as_str());
                text.append(" matrix from ");
                text.append(render_unsigned(*len as u128).as_str());
                text.append(" elements");
                text
            },
            MatrixError::DimensionMismatch { a_rows, a_cols, b_rows, b_cols } => {
                let mut text = String::from_str("Cannot multiply matrices with dimensions ");
                text.append(render_unsigned(*a_rows as u128).as_str());
                text.append("x");
                text.append(render_unsigned(*a_cols as u128).as_str());
                text.append(" and ");
                text.append(render_unsigned(*b_rows as u128).as_str());
                text.append("x");
                text.append(render_unsigned(*b_cols as u128).as_str());
                text
            },
        }
    }
}

impl<T: Element> View for Matrix<T> {
    type V = Grid;

    /// The shape and the integers that the elements denote.
    closed spec fn view(&self) -> Grid {
        Grid {
            rows: self.rows as nat,
            cols: self.cols as nat,
            cells: self.data@.map_values(|e: T| e.value()),
        }
    }
}

impl<T: Element> Matrix<T> {
    #[verifier::type_invariant]
    spec fn sized(&self) -> bool {
        &&& self.data@.len() == self.rows * self.cols
        &&& self.rows * self.cols <= usize::MAX
    }

    /// The elements themselves, row by row.
    pub closed spec fn elements(&self) -> Seq<T> {
        self.data@
    }

    /// A matrix of `rows` rows and `cols` columns over `data`, which holds
    /// the rows one after another. The length of `data` is not examined: it
    /// is the caller's part to hand over exactly `rows * cols` elements.
    /// `try_new` is the constructor that examines it.
    pub fn new(rows: usize, cols: usize, data: Vec<T>) -> (m: Self)
        requires
            data@.len() == rows * cols,
        ensures
            m@.rows == rows,
            m@.cols == cols,
            m@.cells == data@.map_values(|e: T| e.value()),
            m.elements() == data@,
            m@.well_formed(),
    {
        let _len: usize = data.len();
        Matrix { rows, cols, data }
    }

    /// A matrix of `rows` rows and `cols` columns over `data`, provided that
    /// `data` holds exactly `rows * cols` elements; the error reports the
    /// shape asked for and the length found otherwise.
    pub fn try_new(rows: usize, cols: usize, data: Vec<T>) -> (r: Result<Self, MatrixError>)
        ensures
            data@.len() == rows * cols <==> r is Ok,
            r is Ok ==> r->Ok_0@.rows == rows && r->Ok_0@.cols == cols && r->Ok_0@.cells
                == data@.map_values(|e: T| e.value()) && r->Ok_0.elements() == data@
                && r->Ok_0@.well_formed(),
            r is Err ==> r->Err_0 == (MatrixError::ShapeMismatch {
                rows,
                cols,
                len: data@.len() as usize,
            }),
    {
        let len = data.len();
        match rows.checked_mul(cols) {
            Some(size) if size == len => Ok(Matrix { rows, cols, data }),
            _ => Err(MatrixError::ShapeMismatch { rows, cols, len }),
        }
    }

    /// The number of rows. Every matrix is well formed, and its cells are
    /// the values of its elements.
    pub fn rows(&self) -> (n: usize)
        ensures
            n == self@.rows,
            self@.well_formed(),
            self@.cells == self.elements().map_values(|e: T| e.value()),
    {
        proof {
            use_type_invariant(self);
        }
        self.rows
    }

    /// The number of columns. Every matrix is well formed, and its cells
    /// are the values of its elements.
    pub fn cols(&self) -> (n: usize)
        ensures
            n == self@.cols,
            self@.well_formed(),
            self@.cells == self.elements().map_values(|e: T| e.value()),
    {
        proof {
            use_type_invariant(self);
        }
        self.cols
    }

    /// The element in row `i` and column `j`.
    pub fn get(&self, i: usize, j: usize) -> (e: T)
        requires
            i < self@.rows,
            j < self@.cols,
        ensures
            e == self.elements()[i * self@.cols + j],
            e.value() == self@.at(i as int, j as int),
    {
        proof {
            use_type_invariant(self);
            lemma_flat_index(self.rows as nat, self.cols as nat, i as int, j as int);
        }
        self.data[i * self.cols + j]
    }

    /// Row `i` as text.
    fn render_row(&self, i: usize) -> (text: String)
        requires
            i < self@.rows,
        ensures
            text@ == row_text(self@, i as int),
    {
        let mut text = String::from_str("{");
        let mut j: usize = 0;
        while j < self.cols
            invariant
                i < self.rows,
                0 <= j <= self.cols,
                text@ == "{"@ + join(row_cells(self@, i as int, j as nat), " "@),
            decreases self.cols - j,
        {
            let ghost before = row_cells(self@, i as int, j as nat);
            let cell = self.get(i, j).render();
            if j > 0 {
                text.append(" ");
            }
            text.append(cell.as_str());
            proof {
                lemma_join_push(before, " "@, cell@);
                assert(row_cells(self@, i as int, (j + 1) as nat) =~= before.push(cell@));
                assert(text@ =~= "{"@ + join(row_cells(self@, i as int, (j + 1) as nat), " "@));
            }
            j = j + 1;
        }
        text.append("}");
        text
    }

    /// The matrix as text: each row in braces with its elements separated by
    /// single spaces, the rows separated by a comma and a space.
    pub fn display(&self) -> (text: String)
        ensures
            text@ == display_text(self@),
    {
        let mut text = String::new();
        let mut i: usize = 0;
        while i < self.rows
            invariant
                0 <= i <= self.rows,
                text@ == join(row_blocks(self@, i as nat), ", "@),
            decreases self.rows - i,
        {
            let ghost before = row_blocks(self@, i as nat);
            let row = self.render_row(i);
            if i > 0 {
                text.append(", ");
            }
            text.append(row.as_str());
            proof {
                lemma_join_push(before, ", "@, row@);
                assert(row_blocks(self@, (i + 1) as nat) =~= before.push(row@));
                assert(text@ =~= join(row_blocks(self@, (i + 1) as nat), ", "@));
            }
            i = i + 1;
        }
        text
    }

    /// The matrix as text, preceded by its shape.
    pub fn debug(&self) -> (text: String)
        ensures
            text@ == debug_text(self@),
    {
        let mut text = String::from_str("Matrix(rows=");
        text.append(render_unsigned(self.rows as u128).as_str());
        text.append(", cols=");
        text.append(render_unsigned(self.cols as u128).as_str());
        text.append(", ");
        text.append(self.display().as_str());
        text.append(")");
        text
    }
}

/// Whether `multiply` can be asked for the product of `a` and `b`: either
/// the inner dimensions differ, so that the product is refused, or the
/// result has an addressable size and every step of every cell stays within
/// the element type.
pub fn product_in_range<T: Element>(a: &Matrix<T>, b: &Matrix<T>) -> (ok: bool)
    ensures
        ok <==> (a@.cols == b@.rows ==> a@.rows * b@.cols <= usize::MAX && product_fits::<T>(
            a@,
            b@,
        )),
{
    proof {
        use_type_invariant(a);
        use_type_invariant(b);
    }
    if a.cols != b.rows {
        return true;
    }
    if a.rows.checked_mul(b.cols).is_none() {
        return false;
    }
    let ghost ga = a@;
    let ghost gb = b@;
    let mut i: usize = 0;
    while i < a.rows
        invariant
            ga == a@,
            gb == b@,
            a.data@.len() == a.rows * a.cols,
            b.data@.len() == b.rows * b.cols,
            a.rows * a.cols <= usize::MAX,
            b.rows * b.cols <= usize::MAX,
            a.cols == b.rows,
            0 <= i <= a.rows,
            forall|r: int, c: int, k: int|
                0 <= r < i && 0 <= c < b.cols && 0 <= k < a.cols ==> #[trigger] step_fits::<T>(
                    ga,
                    gb,
                    r,
                    c,
                    k,
                ),
        decreases a.rows - i,
    {
        let mut j: usize = 0;
        while j < b.cols
            invariant
                ga == a@,
                gb == b@,
                a.data@.len() == a.rows * a.cols,
                b.data@.len() == b.rows * b.cols,
                a.rows * a.cols <= usize::MAX,
                b.rows * b.cols <= usize::MAX,
                a.cols == b.rows,
                0 <= i < a.rows,
                0 <= j <= b.cols,
                forall|r: int, c: int, k: int|
                    0 <= r < i && 0 <= c < b.cols && 0 <= k < a.cols ==> #[trigger] step_fits::<T>(
                        ga,
                        gb,
                        r,
                        c,
                        k,
                    ),
                forall|c: int, k: int|
                    0 <= c < j && 0 <= k < a.cols ==> #[trigger] step_fits::<T>(
                        ga,
                        gb,
                        i as int,
                        c,
                        k,
                    ),
            decreases b.cols - j,
        {
            let mut acc = T::zero();
            let mut k: usize = 0;
            while k < a.cols
                invariant
                    ga == a@,
                    gb == b@,
                    a.data@.len() == a.rows * a.cols,
                    b.data@.len() == b.rows * b.cols,
                    a.rows * a.cols <= usize::MAX,
                    b.rows * b.cols <= usize::MAX,
                    a.cols == b.rows,
                    0 <= i < a.rows,
                    0 <= j < b.cols,
                    0 <= k <= a.cols,
                    acc.value() == dot(ga, gb, i as int, j as int, k as nat),
                    forall|n: int|
                        0 <= n < k ==> #[trigger] step_fits::<T>(ga, gb, i as int, j as int, n),
                decreases a.cols - k,
            {
                proof {
                    lemma_flat_index(a.rows as nat, a.cols as nat, i as int, k as int);
                    lemma_flat_index(b.rows as nat, b.cols as nat, k as int, j as int);
                }
                let x = a.data[i * a.cols + k];
                let y = b.data[k * b.cols + j];
                let term = match x.checked_times(y) {
                    Some(term) => term,
                    None => {
                        assert(!step_fits::<T>(ga, gb, i as int, j as int, k as int));
                        return false;
                    },
                };
                acc = match acc.checked_plus(term) {
                    Some(sum) => sum,
                    None => {
                        assert(!step_fits::<T>(ga, gb, i as int, j as int, k as int));
                        return false;
                    },
                };
                k = k + 1;
            }
            j = j + 1;
        }
        i = i + 1;
    }
    true
}

/// The product of `a` and `b`.
///
/// The operands must agree in their inner dimension. Where they do not, the
/// error reports both shapes and nothing is computed. Each cell of the
/// result is accumulated from zero, one term after another in the order of
/// the inner index.
pub fn multiply<T: Element>(a: &Matrix<T>, b: &Matrix<T>) -> (r: Result<Matrix<T>, MatrixError>)
    requires
        a@.cols == b@.rows ==> a@.rows * b@.cols <= usize::MAX,
        a@.cols == b@.rows ==> product_fits::<T>(a@, b@),
    ensures
        a@.cols != b@.rows <==> r is Err,
        r is Err ==> r == Err::<Matrix<T>, MatrixError>(
            (MatrixError::DimensionMismatch {
                a_rows: a@.rows as usize,
                a_cols: a@.cols as usize,
                b_rows: b@.rows as usize,
                b_cols: b@.cols as usize,
            }),
        ),
        r is Ok ==> r->Ok_0@ == product(a@, b@),
        r is Ok ==> r->Ok_0@.rows == a@.rows && r->Ok_0@.cols == b@.cols,
        r is Ok ==> r->Ok_0@.well_formed(),
{
    proof {
        use_type_invariant(a);
        use_type_invariant(b);
    }
    if a.cols != b.rows {
        return Err(
            MatrixError::DimensionMismatch {
                a_rows: a.rows,
                a_cols: a.cols,
                b_rows: b.rows,
                b_cols: b.cols,
            },
        );
    }
    let ghost ga = a@;
    let ghost gb = b@;
    let mut data: Vec<T> = Vec::new();
    let mut i: usize = 0;
    while i < a.rows
        invariant
            ga == a@,
            gb == b@,
            a.data@.len() == a.rows * a.cols,
            b.data@.len() == b.rows * b.cols,
            a.rows * a.cols <= usize::MAX,
            b.rows * b.cols <= usize::MAX,
            a.cols == b.rows,
            a.rows * b.cols <= usize::MAX,
            product_fits::<T>(ga, gb),
            0 <= i <= a.rows,
            data@.len() == i * b.cols,
            forall|p: int|
                0 <= p < data@.len() ==> (#[trigger] data@[p]).value() == dot(
                    ga,
                    gb,
                    p / (b.cols as int),
                    p % (b.cols as int),
                    ga.cols,
                ),
        decreases a.rows - i,
    {
        let mut j: usize = 0;
        while j < b.cols
            invariant
                ga == a@,
                gb == b@,
                a.data@.len() == a.rows * a.cols,
                b.data@.len() == b.rows * b.cols,
                a.rows * a.cols <= usize::MAX,
                b.rows * b.cols <= usize::MAX,
                a.cols == b.rows,
                a.rows * b.cols <= usize::MAX,
                product_fits::<T>(ga, gb),
                0 <= i < a.rows,
                0 <= j <= b.cols,
                data@.len() == i * b.cols + j,
                forall|p: int|
                    0 <= p < data@.len() ==> (#[trigger] data@[p]).value() == dot(
                        ga,
                        gb,
                        p / (b.cols as int),
                        p % (b.cols as int),
                        ga.cols,
                    ),
            decreases b.cols - j,
        {
            let mut acc = T::zero();
            let mut k: usize = 0;
            while k < a.cols
                invariant
                    ga == a@,
                    gb == b@,
                    a.data@.len() == a.rows * a.cols,
                    b.data@.len() == b.rows * b.cols,
                    a.rows * a.cols <= usize::MAX,
                    b.rows * b.cols <= usize::MAX,
                    a.cols == b.rows,
                    product_fits::<T>(ga, gb),
                    0 <= i < a.rows,
                    0 <= j < b.cols,
                    0 <= k <= a.cols,
                    acc.value() == dot(ga, gb, i as int, j as int, k as nat),
                decreases a.cols - k,
            {
                proof {
                    lemma_flat_index(a.rows as nat, a.cols as nat, i as int, k as int);
                    lemma_flat_index(b.rows as nat, b.cols as nat, k as int, j as int);
                    assert(step_fits::<T>(ga, gb, i as int, j as int, k as int));
                }
                let x = a.data[i * a.cols + k];
                let y = b.data[k * b.cols + j];
                acc = acc.plus(x.times(y));
                k = k + 1;
            }
            proof {
                lemma_flat_index(a.rows as nat, b.cols as nat, i as int, j as int);
            }
            data.push(acc);
            j = j + 1;
        }
        assert(i * b.cols + b.cols == (i + 1) * b.cols) by (nonlinear_arith);
        i = i + 1;
    }
    let _len: usize = data.len();
    let m = Matrix { rows: a.rows, cols: b.cols, data };
    assert(m@.cells =~= product(ga, gb).cells);
    Ok(m)
}

} // verus!
