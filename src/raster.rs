//! Raster order of the render loop: which scanline is computed as the k-th
//! unit of work, and how the rows computed independently are put back into
//! one row-major pixel sequence, top row first.

use vstd::prelude::*;
use crate::ppm::Rgb8;

verus! {

/// Concatenation of rows, in the order of the outer sequence.
pub open spec fn concat_rows(rows: Seq<Seq<Rgb8>>) -> Seq<Rgb8>
    decreases rows.len(),
{
    if rows.len() == 0 {
        Seq::empty()
    } else {
        concat_rows(rows.drop_last()) + rows.last()
    }
}

pub open spec fn rows_view(rows: Seq<Vec<Rgb8>>) -> Seq<Seq<Rgb8>> {
    rows.map_values(|v: Vec<Rgb8>| v@)
}

/// Every row holds exactly `width` pixels.
pub open spec fn uniform_width(rows: Seq<Seq<Rgb8>>, width: nat) -> bool {
    forall|k: int| 0 <= k < rows.len() ==> #[trigger] rows[k].len() == width
}

/// The scanline indices in the order in which they are emitted: the image's
/// row index counts up from the bottom, and the top row comes first.
pub fn scanline_order(height: usize) -> (r: Vec<usize>)
    ensures
        r@.len() == height,
        forall|k: int| 0 <= k < height ==> #[trigger] r@[k] == height - 1 - k,
{
    let mut r: Vec<usize> = Vec::new();
    let mut k: usize = 0;
    while k < height
        invariant
            k <= height,
            r@.len() == k,
            forall|m: int| 0 <= m < k ==> #[trigger] r@[m] == height - 1 - m,
        decreases height - k,
    {
        r.push(height - 1 - k);
        k = k + 1;
    }
    r
}

/// Puts the rows, given in output order, one after the other.
pub fn assemble_rows(rows: &Vec<Vec<Rgb8>>) -> (r: Vec<Rgb8>)
    ensures
        r@ == concat_rows(rows_view(rows@)),
{
    let mut r: Vec<Rgb8> = Vec::new();
    let mut k: usize = 0;
    while k < rows.len()
        invariant
            k <= rows@.len(),
            r@ == concat_rows(rows_view(rows@).take(k as int)),
        decreases rows@.len() - k,
    {
        let row = &rows[k];
        let mut i: usize = 0;
        let ghost before = r@;
        while i < row.len()
            invariant
                i <= row@.len(),
                r@ == before + row@.take(i as int),
            decreases row@.len() - i,
        {
            r.push(row[i]);
            assert(r@ =~= before + row@.take(i + 1));
            i = i + 1;
        }
        assert(row@.take(i as int) =~= row@);
        assert(rows_view(rows@).take(k + 1).drop_last() =~= rows_view(rows@).take(k as int));
        k = k + 1;
    }
    assert(rows_view(rows@).take(k as int) =~= rows_view(rows@));
    r
}

/// Rows of equal width, concatenated, have `rows.len() * width` pixels.
pub proof fn lemma_concat_len(rows: Seq<Seq<Rgb8>>, width: nat)
    requires
        uniform_width(rows, width),
    ensures
        concat_rows(rows).len() == rows.len() * width,
    decreases rows.len(),
{
    if rows.len() > 0 {
        lemma_concat_len(rows.drop_last(), width);
        assert(rows.last().len() == width);
        assert((rows.len() - 1) * width + width == rows.len() * width) by (nonlinear_arith);
    }
}

/// Each pixel keeps a fixed place in the output, whatever order the rows were
/// computed in: the pixel in column `i` of the `k`-th output row lands at
/// position `k * width + i`.
pub proof fn lemma_pixel_position(rows: Seq<Seq<Rgb8>>, width: nat, k: int, i: int)
    requires
        uniform_width(rows, width),
        0 <= k < rows.len(),
        0 <= i < width,
    ensures
        concat_rows(rows).len() == rows.len() * width,
        concat_rows(rows)[k * width + i] == rows[k][i],
    decreases rows.len(),
{
    lemma_concat_len(rows, width);
    let front = rows.drop_last();
    lemma_concat_len(front, width);
    if k < rows.len() - 1 {
        lemma_pixel_position(front, width, k, i);
        assert(k * width + i < front.len() * width) by (nonlinear_arith)
            requires
                k < front.len(),
                i < width,
                0 <= k,
        ;
    } else {
        assert(k * width == front.len() * width);
    }
}

} // verus!
