//! What a matrix looks like as text: the definitions that the renderers
//! are proved against.

use vstd::prelude::*;
use crate::decimal::{decimal, digits};
use crate::grid::Grid;

verus! {

/// The texts of `parts` one after another, with `sep` between neighbours and
/// nothing before the first or after the last.
pub open spec fn join(parts: Seq<Seq<char>>, sep: Seq<char>) -> Seq<char>
    decreases parts.len(),
{
    if parts.len() == 0 {
        Seq::empty()
    } else if parts.len() == 1 {
        parts[0]
    } else {
        join(parts.drop_last(), sep) + sep + parts.last()
    }
}

/// The decimal texts of the first `n` cells of row `i`.
pub open spec fn row_cells(g: Grid, i: int, n: nat) -> Seq<Seq<char>> {
    Seq::new(n, |j: int| decimal(g.at(i, j)))
}

/// Row `i` as text: its cells in decimal, separated by single spaces and
/// enclosed in braces.
pub open spec fn row_text(g: Grid, i: int) -> Seq<char> {
    "{"@ + join(row_cells(g, i, g.cols), " "@) + "}"@
}

/// The texts of the first `n` rows.
pub open spec fn row_blocks(g: Grid, n: nat) -> Seq<Seq<char>> {
    Seq::new(n, |i: int| row_text(g, i))
}

/// The matrix as text: one brace block per row, the blocks separated by a
/// comma and a space.
pub open spec fn display_text(g: Grid) -> Seq<char> {
    join(row_blocks(g, g.rows), ", "@)
}

/// The matrix as text together with its shape.
pub open spec fn debug_text(g: Grid) -> Seq<char> {
    "Matrix(rows="@ + digits(g.rows) + ", cols="@ + digits(g.cols) + ", "@ + display_text(g)
        + ")"@
}

/// The report of a product refused for shapes `a_rows x a_cols` and
/// `b_rows x b_cols`.
pub open spec fn mismatch_text(a_rows: nat, a_cols: nat, b_rows: nat, b_cols: nat) -> Seq<char> {
    "Cannot multiply matrices with dimensions "@ + digits(a_rows) + "x"@ + digits(a_cols)
        + " and "@ + digits(b_rows) + "x"@ + digits(b_cols)
}

/// The report of a matrix of shape `rows x cols` refused for holding `len`
/// elements.
pub open spec fn shape_text(rows: nat, cols: nat, len: nat) -> Seq<char> {
    "Cannot build a "@ + digits(rows) + "x"@ + digits(cols) + " matrix from "@ + digits(len)
        + " elements"@
}

/// Joining one part more: the separator comes before every part but the
/// first.
pub proof fn lemma_join_push(parts: Seq<Seq<char>>, sep: Seq<char>, part: Seq<char>)
    ensures
        join(parts.push(part), sep) == if parts.len() == 0 {
            part
        } else {
            join(parts, sep) + sep + part
        },
{
    assert(parts.push(part).drop_last() =~= parts);
}

/// How often the character `c` occurs in `s`.
pub open spec fn occurrences(s: Seq<char>, c: char) -> nat
    decreases s.len(),
{
    if s.len() == 0 {
        0
    } else {
        occurrences(s.drop_last(), c) + if s.last() == c {
            1nat
        } else {
            0nat
        }
    }
}

/// The characters that give a rendered matrix its structure.
pub open spec fn is_punctuation(c: char) -> bool {
    c == '{' || c == '}' || c == ' ' || c == ','
}

/// The number of separators between `n` neighbours.
pub open spec fn gaps(n: nat) -> nat {
    if n == 0 {
        0
    } else {
        (n - 1) as nat
    }
}

/// Occurrences add up over concatenation.
pub proof fn lemma_occurrences_concat(a: Seq<char>, b: Seq<char>, c: char)
    ensures
        occurrences(a + b, c) == occurrences(a, c) + occurrences(b, c),
    decreases b.len(),
{
    if b.len() == 0 {
        assert(a + b =~= a);
    } else {
        lemma_occurrences_concat(a, b.drop_last(), c);
        assert((a + b).drop_last() =~= a + b.drop_last());
    }
}

/// Occurrences in a join that grows by one part.
pub proof fn lemma_occurrences_join_push(
    parts: Seq<Seq<char>>,
    sep: Seq<char>,
    part: Seq<char>,
    c: char,
)
    ensures
        occurrences(join(parts.push(part), sep), c) == if parts.len() == 0 {
            occurrences(part, c)
        } else {
            occurrences(join(parts, sep), c) + occurrences(sep, c) + occurrences(part, c)
        },
{
    lemma_join_push(parts, sep, part);
    if parts.len() > 0 {
        lemma_occurrences_concat(join(parts, sep), sep, c);
        lemma_occurrences_concat(join(parts, sep) + sep, part, c);
    }
}

/// A number in decimal holds no punctuation.
pub proof fn lemma_decimal_plain(v: int, c: char)
    requires
        is_punctuation(c),
    ensures
        occurrences(decimal(v), c) == 0,
{
    reveal_with_fuel(occurrences, 2);
    if v < 0 {
        lemma_digits_plain((-v) as nat, c);
        lemma_occurrences_concat(seq!['-'], digits((-v) as nat), c);
        assert(seq!['-'].drop_last() =~= Seq::<char>::empty());
    } else {
        lemma_digits_plain(v as nat, c);
    }
}

proof fn lemma_digits_plain(n: nat, c: char)
    requires
        is_punctuation(c),
    ensures
        occurrences(digits(n), c) == 0,
    decreases n,
{
    reveal_with_fuel(occurrences, 2);
    if n < 10 {
        assert(digits(n).drop_last() =~= Seq::<char>::empty());
    } else {
        lemma_digits_plain(n / 10, c);
        assert(digits(n).drop_last() =~= digits(n / 10));
    }
}

proof fn lemma_punctuation_texts(c: char)
    requires
        is_punctuation(c),
    ensures
        occurrences("{"@, c) == if c == '{' { 1nat } else { 0nat },
        occurrences("}"@, c) == if c == '}' { 1nat } else { 0nat },
        occurrences(" "@, c) == if c == ' ' { 1nat } else { 0nat },
        occurrences(", "@, c) == if c == ',' || c == ' ' { 1nat } else { 0nat },
{
    reveal_strlit("{");
    reveal_strlit("}");
    reveal_strlit(" ");
    reveal_strlit(", ");
    reveal_with_fuel(occurrences, 3);
    assert("{"@.drop_last() =~= Seq::<char>::empty());
    assert("}"@.drop_last() =~= Seq::<char>::empty());
    assert(" "@.drop_last() =~= Seq::<char>::empty());
    assert(", "@.drop_last() =~= seq![',']);
    assert(seq![','].drop_last() =~= Seq::<char>::empty());
}

proof fn lemma_cells_punctuation(g: Grid, i: int, n: nat, c: char)
    requires
        is_punctuation(c),
    ensures
        occurrences(join(row_cells(g, i, n), " "@), c) == if c == ' ' { gaps(n) } else { 0nat },
    decreases n,
{
    if n > 0 {
        let before = row_cells(g, i, (n - 1) as nat);
        let cell = decimal(g.at(i, n - 1));
        lemma_cells_punctuation(g, i, (n - 1) as nat, c);
        lemma_occurrences_join_push(before, " "@, cell, c);
        assert(row_cells(g, i, n) =~= before.push(cell));
        lemma_decimal_plain(g.at(i, n - 1), c);
        lemma_punctuation_texts(c);
    }
}

proof fn lemma_braced(c: char, g: Grid, i: int)
    ensures
        occurrences(row_text(g, i), c) == occurrences("{"@, c) + occurrences(
            join(row_cells(g, i, g.cols), " "@),
            c,
        ) + occurrences("}"@, c),
{
    let inner = join(row_cells(g, i, g.cols), " "@);
    lemma_occurrences_concat("{"@, inner, c);
    lemma_occurrences_concat("{"@ + inner, "}"@, c);
}

/// The punctuation of one row: one opening and one closing brace, a space
/// between neighbouring elements and nowhere else, no comma.
pub proof fn lemma_row_punctuation(g: Grid, i: int)
    ensures
        occurrences(row_text(g, i), '{') == 1,
        occurrences(row_text(g, i), '}') == 1,
        occurrences(row_text(g, i), ' ') == gaps(g.cols),
        occurrences(row_text(g, i), ',') == 0,
{
    lemma_braced('{', g, i);
    lemma_braced('}', g, i);
    lemma_braced(' ', g, i);
    lemma_braced(',', g, i);
    lemma_cells_punctuation(g, i, g.cols, '{');
    lemma_cells_punctuation(g, i, g.cols, '}');
    lemma_cells_punctuation(g, i, g.cols, ' ');
    lemma_cells_punctuation(g, i, g.cols, ',');
    lemma_punctuation_texts('{');
    lemma_punctuation_texts('}');
    lemma_punctuation_texts(' ');
    lemma_punctuation_texts(',');
}

proof fn lemma_blocks_punctuation(g: Grid, n: nat)
    ensures
        occurrences(join(row_blocks(g, n), ", "@), '{') == n,
        occurrences(join(row_blocks(g, n), ", "@), '}') == n,
        occurrences(join(row_blocks(g, n), ", "@), ',') == gaps(n),
        occurrences(join(row_blocks(g, n), ", "@), ' ') == n * gaps(g.cols) + gaps(n),
    decreases n,
{
    if n > 0 {
        let before = row_blocks(g, (n - 1) as nat);
        let block = row_text(g, n - 1);
        lemma_blocks_punctuation(g, (n - 1) as nat);
        assert(row_blocks(g, n) =~= before.push(block));
        lemma_row_punctuation(g, n - 1);
        lemma_occurrences_join_push(before, ", "@, block, '{');
        lemma_occurrences_join_push(before, ", "@, block, '}');
        lemma_occurrences_join_push(before, ", "@, block, ' ');
        lemma_occurrences_join_push(before, ", "@, block, ',');
        lemma_punctuation_texts('{');
        lemma_punctuation_texts('}');
        lemma_punctuation_texts(' ');
        lemma_punctuation_texts(',');
        assert(n * gaps(g.cols) == (n - 1) * gaps(g.cols) + gaps(g.cols)) by (nonlinear_arith);
    }
}

/// A rendered matrix groups exactly one brace block per row, and each block
/// holds exactly one element per column: the text has as many opening and
/// as many closing braces as the matrix has rows, a comma between
/// neighbouring blocks and nowhere else, and a space after each comma and
/// between neighbouring elements of a row and nowhere else.
pub proof fn lemma_display_punctuation(g: Grid)
    ensures
        occurrences(display_text(g), '{') == g.rows,
        occurrences(display_text(g), '}') == g.rows,
        occurrences(display_text(g), ',') == gaps(g.rows),
        occurrences(display_text(g), ' ') == g.rows * gaps(g.cols) + gaps(g.rows),
{
    lemma_blocks_punctuation(g, g.rows);
}

} // verus!
