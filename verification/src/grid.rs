//! Grid: a container arranging its children in the cells of a grid.
//!
//! The interesting logic is the assignment of cells to the children
//! ([`Grid::assign_cell_to_auto_placed_children`]): children with an explicit
//! position are placed first, then the others are placed, in order, in the first
//! free area that fits them.

use vstd::prelude::*;
use crate::widget::{AccessRole, F64, Request, WidgetId, WidgetPod};

verus! {

// --- MARK: PARAMS

/// Parameters required when adding an item to a [`Grid`] container.
#[derive(Debug, Copy, Clone, PartialEq, Eq, Structural)]
pub struct GridParams {
    /// Defines which column in the grid the item should start.
    pub col: Option<u16>,
    /// Defines which row in the grid the item should start.
    pub row: Option<u16>,
    /// Defines how many column in the grid the item should occupy.
    pub width: u16,
    /// Defines how many row in the grid the item should occupy.
    pub height: u16,
}

/// Describes how a grid track (row/column) should be sized.
/// Lengths and factors are `f64` values carried by their bits.
#[derive(Clone, Copy, Debug, PartialEq, Eq, Structural)]
pub enum GridTrackSize {
    /// Between the minimum and the maximum intrinsic size of the content.
    Auto,
    /// Minimum intrinsic size of the content.
    MinContent,
    /// Maximum intrinsic size of the content.
    MaxContent,
    /// Fit content within the given size.
    FitContent(F64),
    /// Fixed at the given size.
    Fixed(F64),
    /// The size of the grid container times the given normalized percentage.
    Percentage(F64),
    /// Fraction of remaining space.
    Fraction(F64),
}

/// The bits of `1.0_f64`.
pub const ONE_F64_BITS: u64 = 0x3ff0_0000_0000_0000u64;

impl GridTrackSize {
    /// One fraction of remaining space.
    pub fn fraction() -> (t: GridTrackSize)
        ensures
            t == GridTrackSize::Fraction(F64(ONE_F64_BITS)),
    {
        GridTrackSize::Fraction(F64(ONE_F64_BITS))
    }
}

impl GridParams {
    /// Creates grid parameters with no position and a 1×1 span.
    pub fn new() -> (p: Self)
        ensures
            p == (GridParams { col: None, row: None, width: 1, height: 1 }),
    {
        GridParams { col: None, row: None, width: 1, height: 1 }
    }

    /// Creates grid parameters for the given position, with a 1×1 span.
    pub fn pos(col: u16, row: u16) -> (p: Self)
        ensures
            p == (GridParams { col: Some(col), row: Some(row), width: 1, height: 1 }),
    {
        Self::new().with_col(col).with_row(row)
    }

    /// Sets the starting column.
    pub fn with_col(self, col: u16) -> (p: Self)
        ensures
            p == (GridParams { col: Some(col), ..self }),
    {
        GridParams { col: Some(col), ..self }
    }

    /// Sets the starting row.
    pub fn with_row(self, row: u16) -> (p: Self)
        ensures
            p == (GridParams { row: Some(row), ..self }),
    {
        GridParams { row: Some(row), ..self }
    }

    /// Sets the starting column and row.
    pub fn with_pos(self, col: u16, row: u16) -> (p: Self)
        ensures
            p == (GridParams { col: Some(col), row: Some(row), ..self }),
    {
        self.with_col(col).with_row(row)
    }

    /// Sets how many columns the item occupies, a positive number.
    pub fn with_width(self, width: u16) -> (p: Self)
        requires
            width > 0,
        ensures
            p == (GridParams { width, ..self }),
    {
        GridParams { width, ..self }
    }

    /// Sets how many rows the item occupies, a positive number.
    pub fn with_height(self, height: u16) -> (p: Self)
        requires
            height > 0,
        ensures
            p == (GridParams { height, ..self }),
    {
        GridParams { height, ..self }
    }

    /// Sets how many columns and rows the item occupies, both positive.
    pub fn with_span(self, width: u16, height: u16) -> (p: Self)
        requires
            width > 0,
            height > 0,
        ensures
            p == (GridParams { width, height, ..self }),
    {
        self.with_width(width).with_height(height)
    }

    /// Sets the width from a conversion, which cannot refuse its input: a
    /// zero width is taken as 1.
    fn width_or_one(self, width: u16) -> (p: Self)
        ensures
            p == (GridParams { width: nonzero(width), ..self }),
    {
        GridParams { width: if width == 0 { 1 } else { width }, ..self }
    }

    /// Sets the height from a conversion: a zero height is taken as 1.
    fn height_or_one(self, height: u16) -> (p: Self)
        ensures
            p == (GridParams { height: nonzero(height), ..self }),
    {
        GridParams { height: if height == 0 { 1 } else { height }, ..self }
    }

    /// Sets the span from a conversion: zero is taken as 1.
    fn span_or_one(self, width: u16, height: u16) -> (p: Self)
        ensures
            p == (GridParams { width: nonzero(width), height: nonzero(height), ..self }),
    {
        self.width_or_one(width).height_or_one(height)
    }
}

// --- MARK: PLACEMENT SPEC

/// The cells of `occ` (rows of columns) covered by the rectangle are all free.
pub open spec fn rect_free(occ: Seq<Seq<bool>>, col: int, row: int, w: int, h: int) -> bool {
    forall|r: int, c: int| row <= r < row + h && col <= c < col + w ==> !#[trigger] occ[r][c]
}

/// `occ` with the cells of the rectangle marked occupied.
pub open spec fn fill_rect(occ: Seq<Seq<bool>>, col: int, row: int, w: int, h: int) -> Seq<Seq<bool>> {
    Seq::new(occ.len(), |r: int| Seq::new(occ[r].len(), |c: int|
        occ[r][c] || (row <= r < row + h && col <= c < col + w)))
}

/// An empty occupancy of `n_row` rows of `n_col` cells.
pub open spec fn empty_occ(n_col: int, n_row: int) -> Seq<Seq<bool>> {
    Seq::new(n_row as nat, |r: int| Seq::new(n_col as nat, |c: int| false))
}

/// The occupancy after pass 1: the areas of the children with an explicit
/// column and row, placed in order.
pub open spec fn explicit_occ(params: Seq<GridParams>, n_col: int, n_row: int) -> Seq<Seq<bool>>
    decreases params.len(),
{
    if params.len() == 0 {
        empty_occ(n_col, n_row)
    } else {
        let occ = explicit_occ(params.drop_last(), n_col, n_row);
        let p = params.last();
        match (p.col, p.row) {
            (Some(c), Some(r)) => fill_rect(occ, c as int, r as int, p.width as int, p.height as int),
            _ => occ,
        }
    }
}

/// The first start row `s >= from` such that the area at column `col` fits and is free.
pub open spec fn first_free_row(occ: Seq<Seq<bool>>, col: int, w: int, h: int, from: int, n_row: int) -> Option<int>
    decreases n_row - from,
{
    if from < 0 || from + h > n_row {
        None
    } else if rect_free(occ, col, from, w, h) {
        Some(from)
    } else {
        first_free_row(occ, col, w, h, from + 1, n_row)
    }
}

/// The first start column `s >= from` such that the area at row `row` fits and is free.
pub open spec fn first_free_col(occ: Seq<Seq<bool>>, row: int, w: int, h: int, from: int, n_col: int) -> Option<int>
    decreases n_col - from,
{
    if from < 0 || from + w > n_col {
        None
    } else if rect_free(occ, from, row, w, h) {
        Some(from)
    } else {
        first_free_col(occ, row, w, h, from + 1, n_col)
    }
}

/// The first free area, in row-major order starting at column `c` of row `r`,
/// as `(column, row)`.
pub open spec fn first_free_cell(occ: Seq<Seq<bool>>, w: int, h: int, c: int, r: int, n_col: int, n_row: int) -> Option<(int, int)>
    decreases n_row + 1 - r, n_col + 1 - c,
{
    if r < 0 || c < 0 || w < 1 || h < 1 || r + h > n_row {
        None
    } else if c + w > n_col {
        first_free_cell(occ, w, h, 0, r + 1, n_col, n_row)
    } else if rect_free(occ, c, r, w, h) {
        Some((c, r))
    } else {
        first_free_cell(occ, w, h, c + 1, r, n_col, n_row)
    }
}

/// The cell chosen for a child without an explicit position in both axes.
pub open spec fn auto_cell(p: GridParams, occ: Seq<Seq<bool>>, cursor: (int, int), n_col: int, n_row: int) -> Option<(int, int)> {
    let w = p.width as int;
    let h = p.height as int;
    match (p.col, p.row) {
        (Some(c), None) => match first_free_row(occ, c as int, w, h, 0, n_row) {
            Some(r) => Some((c as int, r)),
            None => None,
        },
        (None, Some(r)) => match first_free_col(occ, r as int, w, h, 0, n_col) {
            Some(c) => Some((c, r as int)),
            None => None,
        },
        (None, None) => first_free_cell(occ, w, h, cursor.0, cursor.1, n_col, n_row),
        (Some(_), Some(_)) => None,
    }
}

/// The cursor after placing an area of width `w` at `(col, row)`:
/// the next column, wrapping to the start of the next row.
pub open spec fn advance(col: int, row: int, w: int, n_col: int) -> (int, int) {
    let next_col = (col + w) % n_col;
    (next_col, if next_col == 0 { row + 1 } else { row })
}

/// The state of pass 2 after the given children: occupancy, cursor, and the
/// cell chosen for each of them (`None` when it keeps its previous cell).
pub open spec fn auto_pass(params: Seq<GridParams>, n_col: int, n_row: int, all: Seq<GridParams>)
    -> (Seq<Seq<bool>>, (int, int), Seq<Option<(int, int)>>)
    decreases params.len(),
{
    if params.len() == 0 {
        (explicit_occ(all, n_col, n_row), (0, 0), Seq::empty())
    } else {
        let (occ, cursor, cells) = auto_pass(params.drop_last(), n_col, n_row, all);
        let p = params.last();
        match auto_cell(p, occ, cursor, n_col, n_row) {
            Some((c, r)) => (
                fill_rect(occ, c, r, p.width as int, p.height as int),
                advance(c, r, p.width as int, n_col),
                cells.push(Some((c, r))),
            ),
            None => (occ, cursor, cells.push(None)),
        }
    }
}

/// The cell of a child with parameters `p`, previously at `(x, y)`, after
/// the assignment: its explicit position, the cell chosen in pass 2, or
/// `(x, y)` when no free area fits it.
pub open spec fn assigned_cell(p: GridParams, chosen: Option<(int, int)>, x: u16, y: u16) -> (int, int) {
    match (p.col, p.row) {
        (Some(c), Some(r)) => (c as int, r as int),
        _ => match chosen {
            Some(cell) => cell,
            None => (x as int, y as int),
        },
    }
}

/// The parameters fit a grid of `n_col` columns and `n_row` rows.
pub open spec fn params_fit(p: GridParams, n_col: int, n_row: int) -> bool {
    &&& 1 <= p.width <= n_col
    &&& 1 <= p.height <= n_row
    &&& (p.col matches Some(c) ==> c + p.width <= n_col)
    &&& (p.row matches Some(r) ==> r + p.height <= n_row)
}

/// The occupancy has `n_row` rows of `n_col` cells.
pub open spec fn occ_shape(occ: Seq<Seq<bool>>, n_col: int, n_row: int) -> bool {
    &&& occ.len() == n_row
    &&& forall|r: int| 0 <= r < n_row ==> (#[trigger] occ[r]).len() == n_col
}

proof fn lemma_explicit_occ_shape(params: Seq<GridParams>, n_col: int, n_row: int)
    requires
        n_col >= 0,
        n_row >= 0,
    ensures
        occ_shape(explicit_occ(params, n_col, n_row), n_col, n_row),
    decreases params.len(),
{
    if params.len() > 0 {
        lemma_explicit_occ_shape(params.drop_last(), n_col, n_row);
    }
}

proof fn lemma_first_free_row(occ: Seq<Seq<bool>>, col: int, w: int, h: int, from: int, n_row: int)
    ensures
        first_free_row(occ, col, w, h, from, n_row) matches Some(r) ==> from <= r && r + h <= n_row
            && rect_free(occ, col, r, w, h),
    decreases n_row - from,
{
    if !(from < 0 || from + h > n_row) && !rect_free(occ, col, from, w, h) {
        lemma_first_free_row(occ, col, w, h, from + 1, n_row);
    }
}

proof fn lemma_first_free_col(occ: Seq<Seq<bool>>, row: int, w: int, h: int, from: int, n_col: int)
    ensures
        first_free_col(occ, row, w, h, from, n_col) matches Some(c) ==> from <= c && c + w <= n_col
            && rect_free(occ, c, row, w, h),
    decreases n_col - from,
{
    if !(from < 0 || from + w > n_col) && !rect_free(occ, from, row, w, h) {
        lemma_first_free_col(occ, row, w, h, from + 1, n_col);
    }
}

proof fn lemma_first_free_cell(occ: Seq<Seq<bool>>, w: int, h: int, c: int, r: int, n_col: int, n_row: int)
    ensures
        first_free_cell(occ, w, h, c, r, n_col, n_row) matches Some(cell) ==>
            0 <= cell.0 && cell.0 + w <= n_col && 0 <= cell.1 && cell.1 + h <= n_row
            && rect_free(occ, cell.0, cell.1, w, h),
    decreases n_row + 1 - r, n_col + 1 - c,
{
    if r < 0 || c < 0 || w < 1 || h < 1 || r + h > n_row {
    } else if c + w > n_col {
        lemma_first_free_cell(occ, w, h, 0, r + 1, n_col, n_row);
    } else if rect_free(occ, c, r, w, h) {
    } else {
        lemma_first_free_cell(occ, w, h, c + 1, r, n_col, n_row);
    }
}

proof fn lemma_auto_cell(p: GridParams, occ: Seq<Seq<bool>>, cursor: (int, int), n_col: int, n_row: int)
    requires
        params_fit(p, n_col, n_row),
    ensures
        auto_cell(p, occ, cursor, n_col, n_row) matches Some(cell) ==>
            0 <= cell.0 && cell.0 + p.width <= n_col && 0 <= cell.1 && cell.1 + p.height <= n_row
            && rect_free(occ, cell.0, cell.1, p.width as int, p.height as int),
{
    let w = p.width as int;
    let h = p.height as int;
    match (p.col, p.row) {
        (Some(c), None) => lemma_first_free_row(occ, c as int, w, h, 0, n_row),
        (None, Some(r)) => lemma_first_free_col(occ, r as int, w, h, 0, n_col),
        (None, None) => lemma_first_free_cell(occ, w, h, cursor.0, cursor.1, n_col, n_row),
        _ => {},
    }
}

/// Every parameter fits the grid.
pub open spec fn all_fit(params: Seq<GridParams>, n_col: int, n_row: int) -> bool {
    forall|i: int| 0 <= i < params.len() ==> params_fit(#[trigger] params[i], n_col, n_row)
}

proof fn lemma_auto_pass_shape(params: Seq<GridParams>, n_col: int, n_row: int, all: Seq<GridParams>)
    requires
        n_col > 0,
        n_row >= 0,
        all_fit(params, n_col, n_row),
    ensures
        occ_shape(auto_pass(params, n_col, n_row, all).0, n_col, n_row),
        auto_pass(params, n_col, n_row, all).2.len() == params.len(),
        0 <= auto_pass(params, n_col, n_row, all).1.0 < n_col,
        0 <= auto_pass(params, n_col, n_row, all).1.1 <= n_row,
    decreases params.len(),
{
    if params.len() == 0 {
        lemma_explicit_occ_shape(all, n_col, n_row);
    } else {
        assert(all_fit(params.drop_last(), n_col, n_row)) by {
            assert forall|i: int| 0 <= i < params.drop_last().len() implies
                params_fit(#[trigger] params.drop_last()[i], n_col, n_row) by {
                assert(params.drop_last()[i] == params[i]);
            }
        }
        lemma_auto_pass_shape(params.drop_last(), n_col, n_row, all);
        let (occ, cursor, cells) = auto_pass(params.drop_last(), n_col, n_row, all);
        assert(params_fit(params[params.len() - 1], n_col, n_row));
        lemma_auto_cell(params.last(), occ, cursor, n_col, n_row);
    }
}

// --- MARK: PLACEMENT LAWS

/// The column of a chosen cell.
pub open spec fn cell_col(cell: Option<(int, int)>) -> int {
    match cell {
        Some((c, _)) => c,
        None => 0,
    }
}

/// The row of a chosen cell.
pub open spec fn cell_row(cell: Option<(int, int)>) -> int {
    match cell {
        Some((_, r)) => r,
        None => 0,
    }
}

/// Two rectangles (column, row, width, height) share no cell.
pub open spec fn rects_disjoint(c1: int, r1: int, w1: int, h1: int, c2: int, r2: int, w2: int, h2: int) -> bool {
    c1 + w1 <= c2 || c2 + w2 <= c1 || r1 + h1 <= r2 || r2 + h2 <= r1
}

/// Every cell of the rectangle is occupied in `occ`.
pub open spec fn rect_filled(occ: Seq<Seq<bool>>, col: int, row: int, w: int, h: int) -> bool {
    forall|r: int, c: int| row <= r < row + h && col <= c < col + w ==> #[trigger] occ[r][c]
}

/// The rectangle lies inside a grid of `n_col` columns and `n_row` rows.
pub open spec fn rect_inside(col: int, row: int, w: int, h: int, n_col: int, n_row: int) -> bool {
    0 <= col && col + w <= n_col && 0 <= row && row + h <= n_row
}

/// `p` places its child at an explicit column and row.
pub open spec fn is_explicit(p: GridParams) -> bool {
    p.col is Some && p.row is Some
}

/// Every cell occupied in `a` is occupied in `b`.
pub open spec fn occ_within(a: Seq<Seq<bool>>, b: Seq<Seq<bool>>, n_col: int, n_row: int) -> bool {
    forall|r: int, c: int| 0 <= r < n_row && 0 <= c < n_col && #[trigger] a[r][c] ==> b[r][c]
}

proof fn lemma_fill_rect(occ: Seq<Seq<bool>>, col: int, row: int, w: int, h: int, n_col: int, n_row: int)
    requires
        occ_shape(occ, n_col, n_row),
    ensures
        occ_shape(fill_rect(occ, col, row, w, h), n_col, n_row),
        occ_within(occ, fill_rect(occ, col, row, w, h), n_col, n_row),
        rect_inside(col, row, w, h, n_col, n_row) ==> rect_filled(fill_rect(occ, col, row, w, h), col, row, w, h),
{
    let f = fill_rect(occ, col, row, w, h);
    assert forall|r: int| 0 <= r < n_row implies (#[trigger] f[r]).len() == n_col by {}
    assert forall|r: int, c: int| 0 <= r < n_row && 0 <= c < n_col && #[trigger] occ[r][c] implies f[r][c] by {}
    if rect_inside(col, row, w, h, n_col, n_row) {
        assert forall|r: int, c: int| row <= r < row + h && col <= c < col + w implies #[trigger] f[r][c] by {}
    }
}

proof fn lemma_filled_within(a: Seq<Seq<bool>>, b: Seq<Seq<bool>>, col: int, row: int, w: int, h: int, n_col: int, n_row: int)
    requires
        rect_filled(a, col, row, w, h),
        rect_inside(col, row, w, h, n_col, n_row),
        occ_within(a, b, n_col, n_row),
    ensures
        rect_filled(b, col, row, w, h),
{
    assert forall|r: int, c: int| row <= r < row + h && col <= c < col + w implies #[trigger] b[r][c] by {
        assert(a[r][c]);
    }
}

/// A free rectangle shares no cell with a filled one.
proof fn lemma_free_disjoint(occ: Seq<Seq<bool>>, c1: int, r1: int, w1: int, h1: int, c2: int, r2: int, w2: int, h2: int)
    requires
        rect_free(occ, c1, r1, w1, h1),
        rect_filled(occ, c2, r2, w2, h2),
        w1 >= 1,
        h1 >= 1,
        w2 >= 1,
        h2 >= 1,
    ensures
        rects_disjoint(c1, r1, w1, h1, c2, r2, w2, h2),
{
    if !rects_disjoint(c1, r1, w1, h1, c2, r2, w2, h2) {
        let r = if r1 < r2 { r2 } else { r1 };
        let c = if c1 < c2 { c2 } else { c1 };
        assert(occ[r][c]);
    }
}

proof fn lemma_explicit_filled(all: Seq<GridParams>, n_col: int, n_row: int, k: int)
    requires
        n_col >= 0,
        n_row >= 0,
        all_fit(all, n_col, n_row),
        0 <= k < all.len(),
        is_explicit(all[k]),
    ensures
        rect_filled(
            explicit_occ(all, n_col, n_row),
            all[k].col->0 as int, all[k].row->0 as int, all[k].width as int, all[k].height as int,
        ),
    decreases all.len(),
{
    let prev = all.drop_last();
    assert(all_fit(prev, n_col, n_row)) by {
        assert forall|i: int| 0 <= i < prev.len() implies params_fit(#[trigger] prev[i], n_col, n_row) by {
            assert(prev[i] == all[i]);
        }
    }
    lemma_explicit_occ_shape(prev, n_col, n_row);
    let occ = explicit_occ(prev, n_col, n_row);
    let p = all.last();
    assert(params_fit(all[all.len() - 1], n_col, n_row));
    if k == all.len() - 1 {
        lemma_fill_rect(occ, p.col->0 as int, p.row->0 as int, p.width as int, p.height as int, n_col, n_row);
    } else {
        assert(prev[k] == all[k]);
        assert(params_fit(all[k], n_col, n_row));
        lemma_explicit_filled(prev, n_col, n_row, k);
        if is_explicit(p) {
            lemma_fill_rect(occ, p.col->0 as int, p.row->0 as int, p.width as int, p.height as int, n_col, n_row);
            lemma_filled_within(
                occ, explicit_occ(all, n_col, n_row),
                all[k].col->0 as int, all[k].row->0 as int, all[k].width as int, all[k].height as int, n_col, n_row,
            );
        }
    }
}

/// The areas chosen in pass 2 lie inside the grid and are filled in the
/// resulting occupancy, as are those of the explicitly placed children; the
/// chosen areas overlap neither each other nor the explicit ones.
proof fn lemma_auto_pass_placement(params: Seq<GridParams>, n_col: int, n_row: int, all: Seq<GridParams>)
    requires
        n_col > 0,
        n_row > 0,
        all_fit(params, n_col, n_row),
        all_fit(all, n_col, n_row),
    ensures
        ({
            let (occ, cursor, cells) = auto_pass(params, n_col, n_row, all);
            &&& occ_shape(occ, n_col, n_row)
            &&& cells.len() == params.len()
            &&& forall|k: int| 0 <= k < all.len() && is_explicit(#[trigger] all[k]) ==>
                rect_filled(occ, all[k].col->0 as int, all[k].row->0 as int, all[k].width as int, all[k].height as int)
            &&& forall|i: int| 0 <= i < params.len() && #[trigger] cells[i] is Some ==> {
                &&& rect_inside(cell_col(cells[i]), cell_row(cells[i]), params[i].width as int, params[i].height as int, n_col, n_row)
                &&& rect_filled(occ, cell_col(cells[i]), cell_row(cells[i]), params[i].width as int, params[i].height as int)
            }
            &&& forall|i: int, j: int| 0 <= i < j < params.len() && #[trigger] cells[i] is Some && #[trigger] cells[j] is Some ==>
                rects_disjoint(
                    cell_col(cells[i]), cell_row(cells[i]), params[i].width as int, params[i].height as int,
                    cell_col(cells[j]), cell_row(cells[j]), params[j].width as int, params[j].height as int,
                )
            &&& forall|i: int, k: int| 0 <= i < params.len() && 0 <= k < all.len() && #[trigger] cells[i] is Some
                && is_explicit(#[trigger] all[k]) ==>
                rects_disjoint(
                    cell_col(cells[i]), cell_row(cells[i]), params[i].width as int, params[i].height as int,
                    all[k].col->0 as int, all[k].row->0 as int, all[k].width as int, all[k].height as int,
                )
        }),
    decreases params.len(),
{
    lemma_auto_pass_shape(params, n_col, n_row, all);
    if params.len() == 0 {
        lemma_explicit_occ_shape(all, n_col, n_row);
        assert forall|k: int| 0 <= k < all.len() && is_explicit(#[trigger] all[k]) implies
            rect_filled(explicit_occ(all, n_col, n_row), all[k].col->0 as int, all[k].row->0 as int, all[k].width as int, all[k].height as int) by {
            lemma_explicit_filled(all, n_col, n_row, k);
        }
    } else {
        let prev = params.drop_last();
        assert(all_fit(prev, n_col, n_row)) by {
            assert forall|i: int| 0 <= i < prev.len() implies params_fit(#[trigger] prev[i], n_col, n_row) by {
                assert(prev[i] == params[i]);
            }
        }
        lemma_auto_pass_placement(prev, n_col, n_row, all);
        lemma_auto_pass_shape(prev, n_col, n_row, all);
        let (occ, cursor, cells) = auto_pass(prev, n_col, n_row, all);
        let p = params.last();
        let n = prev.len() as int;
        assert(params_fit(params[n], n_col, n_row));
        lemma_auto_cell(p, occ, cursor, n_col, n_row);
        let (occ2, cursor2, cells2) = auto_pass(params, n_col, n_row, all);
        assert forall|i: int| 0 <= i < n implies #[trigger] params[i] == prev[i] by {}
        match auto_cell(p, occ, cursor, n_col, n_row) {
            Some(cell) => {
                let (c, r) = cell;
                let w = p.width as int;
                let h = p.height as int;
                lemma_fill_rect(occ, c, r, w, h, n_col, n_row);
                assert(cells2 == cells.push(Some((c, r))));
                assert forall|k: int| 0 <= k < all.len() && is_explicit(#[trigger] all[k]) implies
                    rect_filled(occ2, all[k].col->0 as int, all[k].row->0 as int, all[k].width as int, all[k].height as int) by {
                    assert(params_fit(all[k], n_col, n_row));
                    lemma_filled_within(occ, occ2, all[k].col->0 as int, all[k].row->0 as int, all[k].width as int, all[k].height as int, n_col, n_row);
                }
                assert forall|i: int| 0 <= i < params.len() && #[trigger] cells2[i] is Some implies {
                    &&& rect_inside(cell_col(cells2[i]), cell_row(cells2[i]), params[i].width as int, params[i].height as int, n_col, n_row)
                    &&& rect_filled(occ2, cell_col(cells2[i]), cell_row(cells2[i]), params[i].width as int, params[i].height as int)
                } by {
                    if i < n {
                        assert(cells2[i] == cells[i]);
                        assert(cells[i] is Some);
                        lemma_filled_within(occ, occ2, cell_col(cells[i]), cell_row(cells[i]), prev[i].width as int, prev[i].height as int, n_col, n_row);
                    }
                }
                assert forall|i: int, j: int| 0 <= i < j < params.len() && #[trigger] cells2[i] is Some && #[trigger] cells2[j] is Some implies
                    rects_disjoint(
                        cell_col(cells2[i]), cell_row(cells2[i]), params[i].width as int, params[i].height as int,
                        cell_col(cells2[j]), cell_row(cells2[j]), params[j].width as int, params[j].height as int,
                    ) by {
                    assert(cells2[i] == cells[i]);
                    if j < n {
                        assert(cells2[j] == cells[j]);
                        assert(cells[i] is Some && cells[j] is Some);
                    } else {
                        assert(cells[i] is Some);
                        lemma_free_disjoint(occ, c, r, w, h, cell_col(cells[i]), cell_row(cells[i]), prev[i].width as int, prev[i].height as int);
                    }
                }
                assert forall|i: int, k: int| 0 <= i < params.len() && 0 <= k < all.len() && #[trigger] cells2[i] is Some
                    && is_explicit(#[trigger] all[k]) implies
                    rects_disjoint(
                        cell_col(cells2[i]), cell_row(cells2[i]), params[i].width as int, params[i].height as int,
                        all[k].col->0 as int, all[k].row->0 as int, all[k].width as int, all[k].height as int,
                    ) by {
                    if i < n {
                        assert(cells2[i] == cells[i]);
                        assert(cells[i] is Some);
                    } else {
                        lemma_free_disjoint(occ, c, r, w, h, all[k].col->0 as int, all[k].row->0 as int, all[k].width as int, all[k].height as int);
                    }
                }
            },
            None => {
                assert(cells2 == cells.push(None));
                assert(occ2 == occ);
                assert forall|i: int| 0 <= i < params.len() && #[trigger] cells2[i] is Some implies {
                    &&& rect_inside(cell_col(cells2[i]), cell_row(cells2[i]), params[i].width as int, params[i].height as int, n_col, n_row)
                    &&& rect_filled(occ2, cell_col(cells2[i]), cell_row(cells2[i]), params[i].width as int, params[i].height as int)
                } by {
                    assert(cells2[i] == cells[i]);
                }
                assert forall|i: int, j: int| 0 <= i < j < params.len() && #[trigger] cells2[i] is Some && #[trigger] cells2[j] is Some implies
                    rects_disjoint(
                        cell_col(cells2[i]), cell_row(cells2[i]), params[i].width as int, params[i].height as int,
                        cell_col(cells2[j]), cell_row(cells2[j]), params[j].width as int, params[j].height as int,
                    ) by {
                    assert(cells2[i] == cells[i]);
                    assert(cells2[j] == cells[j]);
                }
                assert forall|i: int, k: int| 0 <= i < params.len() && 0 <= k < all.len() && #[trigger] cells2[i] is Some
                    && is_explicit(#[trigger] all[k]) implies
                    rects_disjoint(
                        cell_col(cells2[i]), cell_row(cells2[i]), params[i].width as int, params[i].height as int,
                        all[k].col->0 as int, all[k].row->0 as int, all[k].width as int, all[k].height as int,
                    ) by {
                    assert(cells2[i] == cells[i]);
                }
            },
        }
    }
}

/// The children placed automatically get areas inside the grid that overlap
/// neither each other nor the areas of the children with an explicit position.
pub proof fn law_auto_placement_no_overlap(params: Seq<GridParams>, n_col: int, n_row: int)
    requires
        n_col > 0,
        n_row > 0,
        all_fit(params, n_col, n_row),
    ensures
        ({
            let cells = auto_pass(params, n_col, n_row, params).2;
            &&& forall|i: int| 0 <= i < params.len() && #[trigger] cells[i] is Some ==>
                rect_inside(cell_col(cells[i]), cell_row(cells[i]), params[i].width as int, params[i].height as int, n_col, n_row)
            &&& forall|i: int, j: int| 0 <= i < j < params.len() && #[trigger] cells[i] is Some && #[trigger] cells[j] is Some ==>
                rects_disjoint(
                    cell_col(cells[i]), cell_row(cells[i]), params[i].width as int, params[i].height as int,
                    cell_col(cells[j]), cell_row(cells[j]), params[j].width as int, params[j].height as int,
                )
            &&& forall|i: int, k: int| 0 <= i < params.len() && 0 <= k < params.len() && #[trigger] cells[i] is Some
                && is_explicit(#[trigger] params[k]) ==>
                rects_disjoint(
                    cell_col(cells[i]), cell_row(cells[i]), params[i].width as int, params[i].height as int,
                    params[k].col->0 as int, params[k].row->0 as int, params[k].width as int, params[k].height as int,
                )
        }),
{
    lemma_auto_pass_placement(params, n_col, n_row, params);
}

/// The search for a free area never goes back: the area found starts at the
/// starting cell or after it, in row-major order.
proof fn lemma_first_free_cell_after(occ: Seq<Seq<bool>>, w: int, h: int, c: int, r: int, n_col: int, n_row: int)
    ensures
        first_free_cell(occ, w, h, c, r, n_col, n_row) matches Some(cell) ==>
            cell.1 > r || (cell.1 == r && cell.0 >= c),
    decreases n_row + 1 - r, n_col + 1 - c,
{
    if r < 0 || c < 0 || w < 1 || h < 1 || r + h > n_row {
    } else if c + w > n_col {
        lemma_first_free_cell_after(occ, w, h, 0, r + 1, n_col, n_row);
    } else if rect_free(occ, c, r, w, h) {
    } else {
        lemma_first_free_cell_after(occ, w, h, c + 1, r, n_col, n_row);
    }
}

proof fn lemma_auto_pass_len(params: Seq<GridParams>, n_col: int, n_row: int, all: Seq<GridParams>)
    ensures
        auto_pass(params, n_col, n_row, all).2.len() == params.len(),
    decreases params.len(),
{
    if params.len() > 0 {
        lemma_auto_pass_len(params.drop_last(), n_col, n_row, all);
    }
}

/// The cells chosen for the first `m` children are those chosen when the
/// pass stops after them.
proof fn lemma_auto_pass_prefix(params: Seq<GridParams>, n_col: int, n_row: int, all: Seq<GridParams>, m: int)
    requires
        0 <= m <= params.len(),
    ensures
        auto_pass(params, n_col, n_row, all).2.take(m) == auto_pass(params.take(m), n_col, n_row, all).2,
    decreases params.len() - m,
{
    lemma_auto_pass_len(params, n_col, n_row, all);
    lemma_auto_pass_len(params.take(m), n_col, n_row, all);
    if m == params.len() {
        assert(params.take(m) =~= params);
    } else {
        let d = params.drop_last();
        lemma_auto_pass_len(d, n_col, n_row, all);
        lemma_auto_pass_prefix(d, n_col, n_row, all, m);
        assert(d.take(m) =~= params.take(m));
        let full = auto_pass(params, n_col, n_row, all).2;
        let part = auto_pass(d, n_col, n_row, all).2;
        assert(full.take(m) =~= part.take(m)) by {
            assert forall|k: int| 0 <= k < m implies full[k] == part[k] by {
                assert(full.drop_last() =~= part);
            }
        }
    }
}

/// The cursor of the pass, after the child `j` was placed and none of the
/// children between it and the `m`-th was: just after the area of child `j`.
proof fn lemma_cursor_after_placement(params: Seq<GridParams>, n_col: int, n_row: int, j: int, m: int)
    requires
        0 <= j < m <= params.len(),
        auto_pass(params, n_col, n_row, params).2[j] is Some,
        forall|k: int| j < k < m ==> (#[trigger] auto_pass(params, n_col, n_row, params).2[k]) is None,
    ensures
        auto_pass(params.take(m), n_col, n_row, params).1 == advance(
            cell_col(auto_pass(params, n_col, n_row, params).2[j]),
            cell_row(auto_pass(params, n_col, n_row, params).2[j]),
            params[j].width as int,
            n_col,
        ),
    decreases m,
{
    let cells = auto_pass(params, n_col, n_row, params).2;
    lemma_auto_pass_len(params, n_col, n_row, params);
    lemma_auto_pass_prefix(params, n_col, n_row, params, m);
    lemma_auto_pass_prefix(params, n_col, n_row, params, m - 1);
    let pm = params.take(m);
    assert(pm.drop_last() =~= params.take(m - 1));
    assert(pm.last() == params[m - 1]);
    let (occ, cursor, prev) = auto_pass(params.take(m - 1), n_col, n_row, params);
    let cur = auto_pass(pm, n_col, n_row, params).2;
    assert(cur == cells.take(m));
    assert(cur[m - 1] == cells[m - 1]);
    if m == j + 1 {
        match auto_cell(params[m - 1], occ, cursor, n_col, n_row) {
            Some((c, r)) => {
                assert(cur == prev.push(Some((c, r))));
                assert(cells[j] == Some((c, r)));
            },
            None => {
                assert(cur == prev.push(None));
            },
        }
    } else {
        lemma_cursor_after_placement(params, n_col, n_row, j, m - 1);
        assert(cells[m - 1] is None);
        match auto_cell(params[m - 1], occ, cursor, n_col, n_row) {
            Some((c, r)) => {
                assert(cur == prev.push(Some((c, r))));
            },
            None => {},
        }
    }
}

/// A child placed automatically in both axes goes after the area of the
/// child placed before it, in row-major order: on the same row at or after
/// the column that follows that area, or on a later row. When that area
/// ends at the last column, the search resumes at the start of the next row.
pub proof fn law_auto_placement_follows_previous(params: Seq<GridParams>, n_col: int, n_row: int, j: int, i: int)
    requires
        n_col > 0,
        n_row > 0,
        all_fit(params, n_col, n_row),
        0 <= j < i < params.len(),
        params[i].col is None,
        params[i].row is None,
        auto_pass(params, n_col, n_row, params).2[j] is Some,
        auto_pass(params, n_col, n_row, params).2[i] is Some,
        forall|k: int| j < k < i ==> (#[trigger] auto_pass(params, n_col, n_row, params).2[k]) is None,
    ensures
        ({
            let cells = auto_pass(params, n_col, n_row, params).2;
            let end_col = cell_col(cells[j]) + params[j].width;
            &&& end_col < n_col ==> (cell_row(cells[i]) > cell_row(cells[j])
                || (cell_row(cells[i]) == cell_row(cells[j]) && cell_col(cells[i]) >= end_col))
            &&& end_col >= n_col ==> cell_row(cells[i]) > cell_row(cells[j])
        }),
{
    let cells = auto_pass(params, n_col, n_row, params).2;
    law_auto_placement_no_overlap(params, n_col, n_row);
    lemma_auto_pass_len(params, n_col, n_row, params);
    lemma_cursor_after_placement(params, n_col, n_row, j, i);
    lemma_auto_pass_prefix(params, n_col, n_row, params, i + 1);
    let pi = params.take(i + 1);
    assert(pi.drop_last() =~= params.take(i));
    assert(pi.last() == params[i]);
    let (occ, cursor, prev) = auto_pass(params.take(i), n_col, n_row, params);
    let cur = auto_pass(pi, n_col, n_row, params).2;
    assert(cur == cells.take(i + 1));
    assert(cur[i] == cells[i]);
    let cj = cell_col(cells[j]);
    let rj = cell_row(cells[j]);
    let w = params[j].width as int;
    assert(0 <= cj && cj + w <= n_col);
    let x = cj + w;
    if x < n_col {
        vstd::arithmetic::div_mod::lemma_small_mod(x as nat, n_col as nat);
    } else {
        assert(x == n_col);
        vstd::arithmetic::div_mod::lemma_mod_self_0(n_col);
    }
    assert(cursor == advance(cj, rj, w, n_col));
    lemma_first_free_cell_after(occ, params[i].width as int, params[i].height as int, cursor.0, cursor.1, n_col, n_row);
    match auto_cell(params[i], occ, cursor, n_col, n_row) {
        Some((c, r)) => {
            assert(cur == prev.push(Some((c, r))));
            assert(cells[i] == Some((c, r)));
        },
        None => {
            assert(cur == prev.push(None));
        },
    }
}

/// The cell chosen for child `i` is the one found for it when the pass
/// reaches it.
proof fn lemma_cell_at(params: Seq<GridParams>, n_col: int, n_row: int, i: int)
    requires
        0 <= i < params.len(),
    ensures
        auto_pass(params, n_col, n_row, params).2[i] == auto_cell(
            params[i],
            auto_pass(params.take(i), n_col, n_row, params).0,
            auto_pass(params.take(i), n_col, n_row, params).1,
            n_col,
            n_row,
        ),
{
    let cells = auto_pass(params, n_col, n_row, params).2;
    lemma_auto_pass_len(params, n_col, n_row, params);
    lemma_auto_pass_prefix(params, n_col, n_row, params, i + 1);
    let pi = params.take(i + 1);
    assert(pi.drop_last() =~= params.take(i));
    assert(pi.last() == params[i]);
    let (occ, cursor, prev) = auto_pass(params.take(i), n_col, n_row, params);
    let cur = auto_pass(pi, n_col, n_row, params).2;
    assert(cur[i] == cells[i]);
    match auto_cell(params[i], occ, cursor, n_col, n_row) {
        Some((c, r)) => {
            assert(cur == prev.push(Some((c, r))));
        },
        None => {
            assert(cur == prev.push(None));
        },
    }
}

/// A child with an explicit column (or row) and no explicit row (or column)
/// is placed at its column (or row); a child with both keeps the cell it was
/// given in the first pass, so the second pass chooses none for it.
pub proof fn law_auto_placement_keeps_given_axis(params: Seq<GridParams>, n_col: int, n_row: int, i: int)
    requires
        0 <= i < params.len(),
    ensures
        ({
            let cell = auto_pass(params, n_col, n_row, params).2[i];
            &&& (params[i].col is Some && params[i].row is None && cell is Some) ==> cell_col(cell) == params[i].col->0
            &&& (params[i].row is Some && params[i].col is None && cell is Some) ==> cell_row(cell) == params[i].row->0
            &&& (params[i].col is Some && params[i].row is Some) ==> cell is None
        }),
{
    lemma_cell_at(params, n_col, n_row, i);
}

// --- MARK: PLACEMENT EXEC

/// An empty occupancy of `n_row` rows of `n_col` cells.
fn new_occ(n_col: usize, n_row: usize) -> (occ: Vec<Vec<bool>>)
    ensures
        occ@.len() == n_row,
        forall|r: int| 0 <= r < n_row ==> (#[trigger] occ@[r])@ == Seq::new(n_col as nat, |c: int| false),
{
    let mut occ: Vec<Vec<bool>> = Vec::new();
    let mut r: usize = 0;
    while r < n_row
        invariant
            r <= n_row,
            occ@.len() == r,
            forall|k: int| 0 <= k < r ==> (#[trigger] occ@[k])@ == Seq::new(n_col as nat, |c: int| false),
        decreases n_row - r,
    {
        let mut line: Vec<bool> = Vec::new();
        let mut c: usize = 0;
        while c < n_col
            invariant
                c <= n_col,
                line@ == Seq::new(c as nat, |k: int| false),
            decreases n_col - c,
        {
            line.push(false);
            c += 1;
        }
        occ.push(line);
        r += 1;
    }
    occ
}

/// The spec view of an occupancy.
pub open spec fn occ_view(occ: Seq<Vec<bool>>) -> Seq<Seq<bool>> {
    Seq::new(occ.len(), |r: int| occ[r]@)
}

/// Marks the cells of the rectangle occupied.
fn fill(occ: &mut Vec<Vec<bool>>, col: usize, row: usize, w: usize, h: usize)
    requires
        row + h <= old(occ)@.len(),
        col + w <= usize::MAX,
        row + h <= usize::MAX,
        forall|r: int| row <= r < row + h ==> col + w <= (#[trigger] old(occ)@[r])@.len(),
    ensures
        occ_view(final(occ)@) == fill_rect(occ_view(old(occ)@), col as int, row as int, w as int, h as int),
{
    let ghost before = occ_view(occ@);
    let row_end = row + h;
    let col_end = col + w;
    let mut r: usize = row;
    while r < row_end
        invariant
            row_end == row + h,
            col_end == col + w,
            row <= r <= row + h,
            row + h <= occ@.len(),
            occ@.len() == before.len(),
            forall|k: int| row <= k < row + h ==> col + w <= (#[trigger] before[k]).len(),
            forall|k: int| 0 <= k < occ@.len() ==> (#[trigger] occ@[k])@.len() == before[k].len(),
            forall|k: int, c: int| 0 <= k < occ@.len() && 0 <= c < before[k].len() ==>
                #[trigger] occ@[k]@[c] == (before[k][c] || (row <= k < r && col <= c < col + w)),
        decreases row + h - r,
    {
        let mut line = occ.remove(r);
        let ghost line0 = line@;
        assert(line0 == before[r as int]);
        let mut c: usize = col;
        while c < col_end
            invariant
                col_end == col + w,
                col <= c <= col + w,
                col + w <= line0.len(),
                line@.len() == line0.len(),
                forall|k: int| 0 <= k < line0.len() ==> #[trigger] line@[k] == (line0[k] || (col <= k < c)),
            decreases col + w - c,
        {
            line.set(c, true);
            c += 1;
        }
        occ.insert(r, line);
        r += 1;
    }
    let ghost after = occ_view(occ@);
    assert(after =~= fill_rect(before, col as int, row as int, w as int, h as int)) by {
        assert forall|k: int| 0 <= k < after.len() implies after[k] =~= fill_rect(before, col as int, row as int, w as int, h as int)[k] by {
            assert(occ@[k]@.len() == before[k].len());
        }
    }
}

/// Returns whether the cells of the rectangle are all free.
fn rect_is_free(occ: &Vec<Vec<bool>>, col: usize, row: usize, w: usize, h: usize) -> (free: bool)
    requires
        row + h <= occ@.len(),
        col + w <= usize::MAX,
        row + h <= usize::MAX,
        forall|r: int| row <= r < row + h ==> col + w <= (#[trigger] occ@[r])@.len(),
    ensures
        free == rect_free(occ_view(occ@), col as int, row as int, w as int, h as int),
{
    let ghost v = occ_view(occ@);
    let row_end = row + h;
    let col_end = col + w;
    let mut r: usize = row;
    while r < row_end
        invariant
            row_end == row + h,
            col_end == col + w,
            row <= r <= row + h,
            row + h <= occ@.len(),
            v == occ_view(occ@),
            forall|k: int| row <= k < row + h ==> col + w <= (#[trigger] occ@[k])@.len(),
            forall|k: int, c: int| row <= k < r && col <= c < col + w ==> !#[trigger] v[k][c],
        decreases row + h - r,
    {
        let mut c: usize = col;
        while c < col_end
            invariant
                row_end == row + h,
                col_end == col + w,
                col <= c <= col + w,
                row <= r < row + h,
                row + h <= occ@.len(),
                v == occ_view(occ@),
                col + w <= occ@[r as int]@.len(),
                forall|k: int, cc: int| row <= k < r && col <= cc < col + w ==> !#[trigger] v[k][cc],
                forall|cc: int| col <= cc < c ==> !#[trigger] v[r as int][cc],
            decreases col + w - c,
        {
            if occ[r][c] {
                assert(v[r as int][c as int]);
                return false;
            }
            c += 1;
        }
        r += 1;
    }
    true
}

proof fn lemma_skip_rows(occ: Seq<Seq<bool>>, col: int, w: int, h: int, from: int, to: int, n_row: int)
    requires
        0 <= from <= to,
        forall|s: int| from <= s < to ==> !(s + h <= n_row && #[trigger] rect_free(occ, col, s, w, h)),
    ensures
        first_free_row(occ, col, w, h, from, n_row) == first_free_row(occ, col, w, h, to, n_row),
    decreases to - from,
{
    if from < to {
        assert(!(from + h <= n_row && rect_free(occ, col, from, w, h)));
        lemma_skip_rows(occ, col, w, h, from + 1, to, n_row);
    }
}

proof fn lemma_skip_cols(occ: Seq<Seq<bool>>, row: int, w: int, h: int, from: int, to: int, n_col: int)
    requires
        0 <= from <= to,
        forall|s: int| from <= s < to ==> !(s + w <= n_col && #[trigger] rect_free(occ, s, row, w, h)),
    ensures
        first_free_col(occ, row, w, h, from, n_col) == first_free_col(occ, row, w, h, to, n_col),
    decreases to - from,
{
    if from < to {
        assert(!(from + w <= n_col && rect_free(occ, from, row, w, h)));
        lemma_skip_cols(occ, row, w, h, from + 1, to, n_col);
    }
}

/// Finds the first start row at which an area of `w` × `h` at column `col` is free,
/// by counting consecutive free rows.
fn find_free_row(occ: &Vec<Vec<bool>>, col: usize, w: usize, h: usize, n_col: usize, n_row: usize) -> (found: Option<usize>)
    requires
        occ_shape(occ_view(occ@), n_col as int, n_row as int),
        1 <= h <= n_row,
        col + w <= n_col,
    ensures
        found == match first_free_row(occ_view(occ@), col as int, w as int, h as int, 0, n_row as int) {
            Some(r) => Some(r as usize),
            None => None::<usize>,
        },
{
    let ghost v = occ_view(occ@);
    assert forall|r: int| 0 <= r < n_row implies (#[trigger] occ@[r])@.len() == n_col by {
        assert(v[r] == occ@[r]@);
    }
    let mut consecutive: usize = 0;
    let mut row: usize = 0;
    while row < n_row
        invariant
            forall|r: int| 0 <= r < n_row ==> (#[trigger] occ@[r])@.len() == n_col,
            v == occ_view(occ@),
            occ_shape(v, n_col as int, n_row as int),
            1 <= h <= n_row,
            col + w <= n_col,
            row <= n_row,
            consecutive <= row,
            consecutive < h,
            forall|r: int| row - consecutive <= r < row ==> #[trigger] rect_free(v, col as int, r, w as int, 1),
            first_free_row(v, col as int, w as int, h as int, 0, n_row as int)
                == first_free_row(v, col as int, w as int, h as int, row - consecutive, n_row as int),
        decreases n_row - row,
    {
        let blocked = !rect_is_free(occ, col, row, w, 1);
        if blocked {
            proof {
                let from = row - consecutive;
                assert forall|s: int| from <= s < row + 1 implies
                    !(s + h <= n_row && #[trigger] rect_free(v, col as int, s, w as int, h as int)) by {
                    if rect_free(v, col as int, s, w as int, h as int) {
                        assert forall|c: int| col <= c < col + w implies !#[trigger] v[row as int][c] by {
                            assert(!v[row as int][c]);
                        }
                    }
                }
                lemma_skip_rows(v, col as int, w as int, h as int, from, row + 1, n_row as int);
            }
            consecutive = 0;
        } else {
            consecutive += 1;
            if consecutive == h {
                let start = row + 1 - h;
                proof {
                    assert(rect_free(v, col as int, start as int, w as int, h as int)) by {
                        assert forall|r: int, c: int| start <= r < start + h && col <= c < col + w implies
                            !#[trigger] v[r][c] by {
                            assert(rect_free(v, col as int, r, w as int, 1));
                        }
                    }
                }
                return Some(start);
            }
        }
        row += 1;
    }
    None
}

/// Finds the first start column at which an area of `w` × `h` at row `row` is free,
/// by counting consecutive free columns.
fn find_free_col(occ: &Vec<Vec<bool>>, row: usize, w: usize, h: usize, n_col: usize, n_row: usize) -> (found: Option<usize>)
    requires
        occ_shape(occ_view(occ@), n_col as int, n_row as int),
        1 <= w <= n_col,
        row + h <= n_row,
    ensures
        found == match first_free_col(occ_view(occ@), row as int, w as int, h as int, 0, n_col as int) {
            Some(c) => Some(c as usize),
            None => None::<usize>,
        },
{
    let ghost v = occ_view(occ@);
    assert forall|r: int| 0 <= r < n_row implies (#[trigger] occ@[r])@.len() == n_col by {
        assert(v[r] == occ@[r]@);
    }
    let mut consecutive: usize = 0;
    let mut col: usize = 0;
    while col < n_col
        invariant
            forall|r: int| 0 <= r < n_row ==> (#[trigger] occ@[r])@.len() == n_col,
            v == occ_view(occ@),
            occ_shape(v, n_col as int, n_row as int),
            1 <= w <= n_col,
            row + h <= n_row,
            col <= n_col,
            consecutive <= col,
            consecutive < w,
            forall|c: int| col - consecutive <= c < col ==> #[trigger] rect_free(v, c, row as int, 1, h as int),
            first_free_col(v, row as int, w as int, h as int, 0, n_col as int)
                == first_free_col(v, row as int, w as int, h as int, col - consecutive, n_col as int),
        decreases n_col - col,
    {
        let blocked = !rect_is_free(occ, col, row, 1, h);
        if blocked {
            proof {
                let from = col - consecutive;
                assert forall|s: int| from <= s < col + 1 implies
                    !(s + w <= n_col && #[trigger] rect_free(v, s, row as int, w as int, h as int)) by {
                    if rect_free(v, s, row as int, w as int, h as int) {
                        assert forall|r: int| row <= r < row + h implies !#[trigger] v[r][col as int] by {
                            assert(!v[r][col as int]);
                        }
                    }
                }
                lemma_skip_cols(v, row as int, w as int, h as int, from, col + 1, n_col as int);
            }
            consecutive = 0;
        } else {
            consecutive += 1;
            if consecutive == w {
                let start = col + 1 - w;
                proof {
                    assert(rect_free(v, start as int, row as int, w as int, h as int)) by {
                        assert forall|r: int, c: int| row <= r < row + h && start <= c < start + w implies
                            !#[trigger] v[r][c] by {
                            assert(rect_free(v, c, row as int, 1, h as int));
                        }
                    }
                }
                return Some(start);
            }
        }
        col += 1;
    }
    None
}

// --- MARK: PREFIX COUNTS

/// The number of occupied cells among the first `c` cells of `line`.
pub open spec fn line_count(line: Seq<bool>, c: int) -> int
    decreases c,
{
    if c <= 0 { 0 } else { line_count(line, c - 1) + if line[c - 1] { 1int } else { 0int } }
}

/// The number of occupied cells in the first `r` rows and `c` columns of `occ`.
pub open spec fn prefix_count(occ: Seq<Seq<bool>>, r: int, c: int) -> int
    decreases r,
{
    if r <= 0 { 0 } else { prefix_count(occ, r - 1, c) + line_count(occ[r - 1], c) }
}

/// The number of occupied cells in the rectangle of rows `[r0, r1)` and
/// columns `[c0, c1)`, by inclusion and exclusion of prefix counts.
pub open spec fn rect_count(occ: Seq<Seq<bool>>, r0: int, r1: int, c0: int, c1: int) -> int {
    prefix_count(occ, r1, c1) - prefix_count(occ, r0, c1) - prefix_count(occ, r1, c0) + prefix_count(occ, r0, c0)
}

proof fn lemma_line_count_bounds(line: Seq<bool>, c: int)
    requires
        0 <= c,
    ensures
        0 <= line_count(line, c) <= c,
    decreases c,
{
    if c > 0 {
        lemma_line_count_bounds(line, c - 1);
    }
}

proof fn lemma_prefix_count_bounds(occ: Seq<Seq<bool>>, r: int, c: int)
    requires
        0 <= r,
        0 <= c <= 0x10000,
    ensures
        0 <= prefix_count(occ, r, c) <= r * 0x10000,
    decreases r,
{
    if r > 0 {
        lemma_prefix_count_bounds(occ, r - 1, c);
        lemma_line_count_bounds(occ[r - 1], c);
    }
}

proof fn lemma_prefix_count_no_column(occ: Seq<Seq<bool>>, r: int)
    ensures
        prefix_count(occ, r, 0) == 0,
    decreases r,
{
    if r > 0 {
        lemma_prefix_count_no_column(occ, r - 1);
    }
}

/// The count of the prefix of `r + 1` rows and `c + 1` columns from those of
/// its neighbours and the cell at `(r, c)`.
proof fn lemma_prefix_step(occ: Seq<Seq<bool>>, r: int, c: int)
    requires
        0 <= r,
        0 <= c,
    ensures
        prefix_count(occ, r + 1, c + 1) == (if occ[r][c] { 1int } else { 0int })
            + prefix_count(occ, r, c + 1) + prefix_count(occ, r + 1, c) - prefix_count(occ, r, c),
{
    assert(prefix_count(occ, r + 1, c + 1) == prefix_count(occ, r, c + 1) + line_count(occ[r], c + 1));
    assert(prefix_count(occ, r + 1, c) == prefix_count(occ, r, c) + line_count(occ[r], c));
}

/// The cells `[c0, c1)` of `line` hold as many occupied cells as the counts
/// differ by, and none exactly when the counts are equal.
proof fn lemma_line_segment(line: Seq<bool>, c0: int, c1: int)
    requires
        0 <= c0 <= c1,
    ensures
        line_count(line, c1) - line_count(line, c0) >= 0,
        (line_count(line, c1) == line_count(line, c0)) <==> (forall|c: int| c0 <= c < c1 ==> !#[trigger] line[c]),
    decreases c1 - c0,
{
    if c1 > c0 {
        lemma_line_segment(line, c0, c1 - 1);
        if line_count(line, c1) == line_count(line, c0) {
            assert forall|c: int| c0 <= c < c1 implies !#[trigger] line[c] by {
                if c < c1 - 1 {
                    assert(!line[c]);
                }
            }
        }
        if forall|c: int| c0 <= c < c1 ==> !#[trigger] line[c] {
            assert(!line[c1 - 1]);
            assert forall|c: int| c0 <= c < c1 - 1 implies !#[trigger] line[c] by {
                assert(c0 <= c < c1);
            }
        }
    }
}

/// The rectangle count is never negative, and it is zero exactly when the
/// rectangle is free.
proof fn lemma_rect_count(occ: Seq<Seq<bool>>, r0: int, r1: int, c0: int, c1: int)
    requires
        0 <= r0 <= r1,
        0 <= c0 <= c1,
    ensures
        rect_count(occ, r0, r1, c0, c1) >= 0,
        (rect_count(occ, r0, r1, c0, c1) == 0) <==> rect_free(occ, c0, r0, c1 - c0, r1 - r0),
    decreases r1 - r0,
{
    if r1 > r0 {
        lemma_rect_count(occ, r0, r1 - 1, c0, c1);
        lemma_line_segment(occ[r1 - 1], c0, c1);
        assert(prefix_count(occ, r1, c1) == prefix_count(occ, r1 - 1, c1) + line_count(occ[r1 - 1], c1));
        assert(prefix_count(occ, r1, c0) == prefix_count(occ, r1 - 1, c0) + line_count(occ[r1 - 1], c0));
        if rect_count(occ, r0, r1, c0, c1) == 0 {
            assert forall|r: int, c: int| r0 <= r < r0 + (r1 - r0) && c0 <= c < c0 + (c1 - c0) implies !#[trigger] occ[r][c] by {
                if r < r1 - 1 {
                    assert(rect_free(occ, c0, r0, c1 - c0, r1 - 1 - r0));
                    assert(r0 <= r < r0 + (r1 - 1 - r0) && c0 <= c < c0 + (c1 - c0));
                } else {
                    assert(!occ[r1 - 1][c]);
                }
            }
        }
        if rect_free(occ, c0, r0, c1 - c0, r1 - r0) {
            assert forall|r: int, c: int| r0 <= r < r0 + (r1 - 1 - r0) && c0 <= c < c0 + (c1 - c0) implies !#[trigger] occ[r][c] by {
                assert(r0 <= r < r0 + (r1 - r0) && c0 <= c < c0 + (c1 - c0));
            }
            assert forall|c: int| c0 <= c < c1 implies !#[trigger] occ[r1 - 1][c] by {
                assert(r0 <= r1 - 1 < r0 + (r1 - r0) && c0 <= c < c0 + (c1 - c0));
            }
        }
    } else {
        assert(rect_free(occ, c0, r0, c1 - c0, 0));
    }
}

/// Entry `[r][c]` of `pre` is the count of the occupied cells of `occ` in
/// its first `r` rows and `c` columns, for every `r <= n_row`, `c <= n_col`.
pub open spec fn is_prefix_table(pre: Seq<Vec<u64>>, occ: Seq<Seq<bool>>, n_col: int, n_row: int) -> bool {
    &&& pre.len() == n_row + 1
    &&& forall|r: int| 0 <= r <= n_row ==> (#[trigger] pre[r])@.len() == n_col + 1
    &&& forall|r: int, c: int| 0 <= r <= n_row && 0 <= c <= n_col ==> (#[trigger] pre[r]@[c]) == prefix_count(occ, r, c)
}

/// Builds the table of prefix counts of the occupied cells.
fn prefix_table(occ: &Vec<Vec<bool>>, n_col: usize, n_row: usize) -> (pre: Vec<Vec<u64>>)
    requires
        occ_shape(occ_view(occ@), n_col as int, n_row as int),
        n_col <= u16::MAX,
        n_row <= u16::MAX,
    ensures
        is_prefix_table(pre@, occ_view(occ@), n_col as int, n_row as int),
{
    let ghost v = occ_view(occ@);
    let mut pre: Vec<Vec<u64>> = Vec::new();
    let mut top: Vec<u64> = Vec::new();
    let mut c: usize = 0;
    while c <= n_col
        invariant
            c <= n_col + 1,
            n_col <= u16::MAX,
            top@.len() == c,
            forall|k: int| 0 <= k < c ==> (#[trigger] top@[k]) == 0,
        decreases n_col + 1 - c,
    {
        top.push(0);
        c += 1;
    }
    proof {
        assert forall|k: int| 0 <= k <= n_col implies (#[trigger] top@[k]) == prefix_count(v, 0, k) by {}
    }
    pre.push(top);
    let mut r: usize = 0;
    while r < n_row
        invariant
            v == occ_view(occ@),
            occ_shape(v, n_col as int, n_row as int),
            n_col <= u16::MAX,
            n_row <= u16::MAX,
            r <= n_row,
            pre@.len() == r + 1,
            forall|k: int| 0 <= k <= r ==> (#[trigger] pre@[k])@.len() == n_col + 1,
            forall|k: int, cc: int| 0 <= k <= r && 0 <= cc <= n_col ==> (#[trigger] pre@[k]@[cc]) == prefix_count(v, k, cc),
        decreases n_row - r,
    {
        proof {
            assert(v[r as int] == occ@[r as int]@);
        }
        let mut line: Vec<u64> = Vec::new();
        line.push(0);
        proof {
            lemma_prefix_count_no_column(v, r + 1);
        }
        let mut c: usize = 0;
        while c < n_col
            invariant
                v == occ_view(occ@),
                occ_shape(v, n_col as int, n_row as int),
                n_col <= u16::MAX,
                n_row <= u16::MAX,
                r < n_row,
                c <= n_col,
                pre@.len() == r + 1,
                v[r as int] == occ@[r as int]@,
                forall|k: int| 0 <= k <= r ==> (#[trigger] pre@[k])@.len() == n_col + 1,
                forall|k: int, cc: int| 0 <= k <= r && 0 <= cc <= n_col ==> (#[trigger] pre@[k]@[cc]) == prefix_count(v, k, cc),
                line@.len() == c + 1,
                forall|cc: int| 0 <= cc <= c ==> (#[trigger] line@[cc]) == prefix_count(v, r + 1, cc),
            decreases n_col - c,
        {
            let cell: u64 = if occ[r][c] { 1 } else { 0 };
            let top_right = pre[r][c + 1];
            let top_left = pre[r][c];
            let left = line[c];
            proof {
                lemma_prefix_step(v, r as int, c as int);
                lemma_prefix_count_bounds(v, r as int, c + 1);
                lemma_prefix_count_bounds(v, r + 1, c as int);
                lemma_prefix_count_bounds(v, r + 1, c + 1);
                lemma_prefix_count_bounds(v, r as int, c as int);
                assert(top_right == prefix_count(v, r as int, c + 1));
                assert(top_left == prefix_count(v, r as int, c as int));
                assert(left == prefix_count(v, r + 1, c as int));
                assert(cell == (if v[r as int][c as int] { 1int } else { 0int }));
            }
            let here = cell + top_right + left - top_left;
            line.push(here);
            c += 1;
        }
        pre.push(line);
        r += 1;
    }
    pre
}

/// Returns whether the rectangle is free, from the prefix counts.
fn rect_count_is_zero(pre: &Vec<Vec<u64>>, Ghost(v): Ghost<Seq<Seq<bool>>>, col: usize, row: usize, w: usize, h: usize, n_col: usize, n_row: usize)
    -> (free: bool)
    requires
        is_prefix_table(pre@, v, n_col as int, n_row as int),
        col + w <= n_col,
        row + h <= n_row,
        n_col <= u16::MAX,
        n_row <= u16::MAX,
    ensures
        free == rect_free(v, col as int, row as int, w as int, h as int),
{
    let a = pre[row + h][col + w];
    let b = pre[row][col + w];
    let c = pre[row + h][col];
    let d = pre[row][col];
    proof {
        lemma_rect_count(v, row as int, row + h, col as int, col + w);
        lemma_prefix_count_bounds(v, row + h, col + w);
        lemma_prefix_count_bounds(v, row as int, col as int);
        lemma_prefix_count_bounds(v, row as int, col + w);
        lemma_prefix_count_bounds(v, row + h, col as int);
        assert(a == prefix_count(v, row + h, col + w));
        assert(b == prefix_count(v, row as int, col + w));
        assert(c == prefix_count(v, row + h, col as int));
        assert(d == prefix_count(v, row as int, col as int));
    }
    a + d - b - c == 0
}

/// Finds the first free area of `w` × `h`, in row-major order from the
/// cursor, testing each candidate area with the prefix counts of the
/// occupied cells.
fn find_free_cell(occ: &Vec<Vec<bool>>, w: usize, h: usize, cursor_col: usize, cursor_row: usize, n_col: usize, n_row: usize)
    -> (found: Option<(usize, usize)>)
    requires
        occ_shape(occ_view(occ@), n_col as int, n_row as int),
        1 <= w <= n_col,
        1 <= h <= n_row,
        cursor_col < n_col,
        cursor_row <= n_row + 1,
        n_col <= u16::MAX,
        n_row <= u16::MAX,
    ensures
        match found {
            Some((c, r)) => first_free_cell(occ_view(occ@), w as int, h as int, cursor_col as int, cursor_row as int, n_col as int, n_row as int)
                == Some((c as int, r as int)),
            None => first_free_cell(occ_view(occ@), w as int, h as int, cursor_col as int, cursor_row as int, n_col as int, n_row as int)
                is None,
        },
{
    let ghost v = occ_view(occ@);
    let ghost target = first_free_cell(v, w as int, h as int, cursor_col as int, cursor_row as int, n_col as int, n_row as int);
    assert(occ@.len() == v.len());
    assert forall|r: int| 0 <= r < n_row implies (#[trigger] occ@[r])@.len() == n_col by {
        assert(v[r] == occ@[r]@);
    }
    let pre = prefix_table(occ, n_col, n_row);
    let mut row: usize = cursor_row;
    let mut first = true;
    while row + h <= n_row
        invariant
            v == occ_view(occ@),
            forall|r: int| 0 <= r < n_row ==> (#[trigger] occ@[r])@.len() == n_col,
            1 <= w <= n_col,
            1 <= h <= n_row,
            cursor_col < n_col,
            cursor_row <= row <= n_row + 1,
            n_col <= u16::MAX,
            n_row <= u16::MAX,
            occ@.len() == n_row,
            first ==> row == cursor_row,
            is_prefix_table(pre@, v, n_col as int, n_row as int),
            target == first_free_cell(v, w as int, h as int, cursor_col as int, cursor_row as int, n_col as int, n_row as int),
            target == first_free_cell(v, w as int, h as int, if first { cursor_col as int } else { 0 }, row as int, n_col as int, n_row as int),
        decreases n_row + 1 - row,
    {
        let mut col: usize = if first { cursor_col } else { 0 };
        while col + w <= n_col
            invariant
                v == occ_view(occ@),
                forall|r: int| 0 <= r < n_row ==> (#[trigger] occ@[r])@.len() == n_col,
                1 <= w <= n_col,
                1 <= h <= n_row,
                row + h <= n_row,
                col <= n_col,
                n_col <= u16::MAX,
                n_row <= u16::MAX,
                occ@.len() == n_row,
                is_prefix_table(pre@, v, n_col as int, n_row as int),
                target == first_free_cell(v, w as int, h as int, cursor_col as int, cursor_row as int, n_col as int, n_row as int),
                target == first_free_cell(v, w as int, h as int, col as int, row as int, n_col as int, n_row as int),
            decreases n_col - col,
        {
            if rect_count_is_zero(&pre, Ghost(v), col, row, w, h, n_col, n_row) {
                assert(target == Some((col as int, row as int)));
                return Some((col, row));
            }
            col += 1;
        }
        first = false;
        row += 1;
    }
    None
}

// --- MARK: GRID

/// A child of a grid with its parameters and its assigned cell.
pub struct GridChild<W> {
    pub widget: WidgetPod<W>,
    pub params: GridParams,
    /// The assigned column.
    pub x: u16,
    /// The assigned row.
    pub y: u16,
}

/// A widget that arranges its children in a grid.
pub struct Grid<W> {
    pub children: Vec<GridChild<W>>,
    pub columns: Vec<GridTrackSize>,
    pub rows: Vec<GridTrackSize>,
    pub requests: Vec<Request>,
}

/// The parameters of the children, in order.
pub open spec fn child_params<W>(children: Seq<GridChild<W>>) -> Seq<GridParams> {
    children.map_values(|c: GridChild<W>| c.params)
}

impl<W> Grid<W> {
    /// Creates a new grid with no columns, rows or children.
    pub fn new() -> (grid: Self)
        ensures
            grid.children@.len() == 0,
            grid.columns@.len() == 0,
            grid.rows@.len() == 0,
            grid.requests@.len() == 0,
    {
        Grid { children: Vec::new(), columns: Vec::new(), rows: Vec::new(), requests: Vec::new() }
    }

    /// Adds a row to the grid.
    pub fn with_row(self, row: GridTrackSize) -> (grid: Self)
        ensures
            grid.rows@ == self.rows@.push(row),
            grid.columns == self.columns,
            grid.children == self.children,
            grid.requests == self.requests,
    {
        let mut grid = self;
        grid.rows.push(row);
        grid
    }

    /// Adds a column to the grid.
    pub fn with_column(self, column: GridTrackSize) -> (grid: Self)
        ensures
            grid.columns@ == self.columns@.push(column),
            grid.rows == self.rows,
            grid.children == self.children,
            grid.requests == self.requests,
    {
        let mut grid = self;
        grid.columns.push(column);
        grid
    }

    /// Defines the track sizes of the grid rows.
    pub fn with_rows(self, rows: Vec<GridTrackSize>) -> (grid: Self)
        ensures
            grid == (Grid { rows, ..self }),
    {
        Grid { rows, ..self }
    }

    /// Defines the track sizes of the grid columns.
    pub fn with_columns(self, columns: Vec<GridTrackSize>) -> (grid: Self)
        ensures
            grid == (Grid { columns, ..self }),
    {
        Grid { columns, ..self }
    }

    /// Adds a child widget with its parameters; its cell is assigned at layout.
    pub fn with(self, child: WidgetPod<W>, params: GridParams) -> (grid: Self)
        ensures
            grid.children@ == self.children@.push(GridChild { widget: child, params, x: 0, y: 0 }),
            grid.columns == self.columns,
            grid.rows == self.rows,
            grid.requests == self.requests,
    {
        let mut grid = self;
        grid.children.push(GridChild { widget: child, params, x: 0, y: 0 });
        grid
    }

    /// Sets the column sizes of the grid. Requests a new layout.
    pub fn set_columns(this: &mut Self, columns: Vec<GridTrackSize>)
        ensures
            final(this).columns == columns,
            final(this).rows == old(this).rows,
            final(this).children == old(this).children,
            final(this).requests@ == old(this).requests@.push(Request::Layout),
    {
        this.columns = columns;
        this.requests.push(Request::Layout);
    }

    /// Sets the row sizes of the grid. Requests a new layout.
    pub fn set_rows(this: &mut Self, rows: Vec<GridTrackSize>)
        ensures
            final(this).rows == rows,
            final(this).columns == old(this).columns,
            final(this).children == old(this).children,
            final(this).requests@ == old(this).requests@.push(Request::Layout),
    {
        this.rows = rows;
        this.requests.push(Request::Layout);
    }

    /// Returns the number of children.
    pub fn len(&self) -> (n: usize)
        ensures
            n == self.children@.len(),
    {
        self.children.len()
    }

    /// Returns `true` if there are no children.
    pub fn is_empty(&self) -> (empty: bool)
        ensures
            empty == (self.children@.len() == 0),
    {
        self.children.len() == 0
    }

    /// Returns the child widget at the given index.
    pub fn get_mut(this: &mut Self, idx: usize) -> (child: &mut W)
        requires
            idx < old(this).children@.len(),
        ensures
            *child == old(this).children@[idx as int].widget.widget,
            final(this).children@.len() == old(this).children@.len(),
            final(this).children@[idx as int].widget.widget == *final(child),
            final(this).children@[idx as int].widget.id == old(this).children@[idx as int].widget.id,
            final(this).children@[idx as int].params == old(this).children@[idx as int].params,
            final(this).children@[idx as int].x == old(this).children@[idx as int].x,
            final(this).children@[idx as int].y == old(this).children@[idx as int].y,
            forall|j: int| 0 <= j < old(this).children@.len() && j != idx ==>
                final(this).children@[j] == old(this).children@[j],
            final(this).columns == old(this).columns,
            final(this).rows == old(this).rows,
            final(this).requests == old(this).requests,
    {
        &mut this.children[idx].widget.widget
    }

    /// Appends a child widget. Signals a change of children.
    pub fn add(this: &mut Self, child: WidgetPod<W>, params: GridParams)
        ensures
            final(this).children@ == old(this).children@.push(GridChild { widget: child, params, x: 0, y: 0 }),
            final(this).columns == old(this).columns,
            final(this).rows == old(this).rows,
            final(this).requests@ == old(this).requests@.push(Request::ChildrenChanged),
    {
        this.children.push(GridChild { widget: child, params, x: 0, y: 0 });
        this.requests.push(Request::ChildrenChanged);
    }

    /// Inserts a child widget at the given index. Signals a change of children.
    pub fn insert(this: &mut Self, idx: usize, child: WidgetPod<W>, params: GridParams)
        requires
            idx <= old(this).children@.len(),
        ensures
            final(this).children@ == old(this).children@.insert(idx as int, GridChild { widget: child, params, x: 0, y: 0 }),
            final(this).columns == old(this).columns,
            final(this).rows == old(this).rows,
            final(this).requests@ == old(this).requests@.push(Request::ChildrenChanged),
    {
        this.children.insert(idx, GridChild { widget: child, params, x: 0, y: 0 });
        this.requests.push(Request::ChildrenChanged);
    }

    /// Replaces the child widget at the given index; the old one is removed from the tree.
    pub fn set(this: &mut Self, idx: usize, child: WidgetPod<W>, params: GridParams)
        requires
            idx < old(this).children@.len(),
        ensures
            final(this).children@ == old(this).children@.update(idx as int, GridChild { widget: child, params, x: 0, y: 0 }),
            final(this).columns == old(this).columns,
            final(this).rows == old(this).rows,
            final(this).requests@ == old(this).requests@.push(Request::RemoveChild),
    {
        let _old_child = this.children.remove(idx);
        this.children.insert(idx, GridChild { widget: child, params, x: 0, y: 0 });
        this.requests.push(Request::RemoveChild);
    }

    /// Sets the child parameters at the given index. Requests a new layout.
    pub fn set_params(this: &mut Self, idx: usize, params: GridParams)
        requires
            idx < old(this).children@.len(),
        ensures
            final(this).children@ == old(this).children@.update(idx as int, GridChild { params, ..old(this).children@[idx as int] }),
            final(this).columns == old(this).columns,
            final(this).rows == old(this).rows,
            final(this).requests@ == old(this).requests@.push(Request::Layout),
    {
        let child = this.children.remove(idx);
        this.children.insert(idx, GridChild { params, ..child });
        this.requests.push(Request::Layout);
    }

    /// Swaps the index of two children. Their assigned cells stay at their indices:
    /// the children exchange their cells. Signals a change of children.
    #[verifier::spinoff_prover]
    pub fn swap(this: &mut Self, a: usize, b: usize)
        requires
            a < old(this).children@.len(),
            b < old(this).children@.len(),
        ensures
            final(this).children@.len() == old(this).children@.len(),
            ({
                let o = old(this).children@;
                let n = final(this).children@;
                &&& n[a as int] == GridChild { x: o[a as int].x, y: o[a as int].y, ..o[b as int] }
                &&& n[b as int] == GridChild { x: o[b as int].x, y: o[b as int].y, ..o[a as int] }
                &&& forall|j: int| 0 <= j < o.len() && j != a && j != b ==> n[j] == o[j]
            }),
            final(this).columns == old(this).columns,
            final(this).rows == old(this).rows,
            final(this).requests@ == old(this).requests@.push(Request::ChildrenChanged),
    {
        let ghost o = this.children@;
        let (a_x, a_y) = (this.children[a].x, this.children[a].y);
        let (b_x, b_y) = (this.children[b].x, this.children[b].y);
        if a != b {
            let (lo, hi) = if a < b { (a, b) } else { (b, a) };
            let child_hi = this.children.remove(hi);
            let child_lo = this.children.remove(lo);
            this.children.insert(lo, child_hi);
            this.children.insert(hi, child_lo);
            let ca = this.children.remove(a);
            this.children.insert(a, GridChild { x: a_x, y: a_y, ..ca });
            let cb = this.children.remove(b);
            this.children.insert(b, GridChild { x: b_x, y: b_y, ..cb });
        }
        this.requests.push(Request::ChildrenChanged);
    }

    /// Removes the child at the given index from the tree.
    pub fn remove(this: &mut Self, idx: usize)
        requires
            idx < old(this).children@.len(),
        ensures
            final(this).children@ == old(this).children@.remove(idx as int),
            final(this).columns == old(this).columns,
            final(this).rows == old(this).rows,
            final(this).requests@ == old(this).requests@.push(Request::RemoveChild),
    {
        let _child = this.children.remove(idx);
        this.requests.push(Request::RemoveChild);
    }

    /// Removes all children from the tree.
    pub fn clear(this: &mut Self)
        ensures
            final(this).children@.len() == 0,
            final(this).columns == old(this).columns,
            final(this).rows == old(this).rows,
            final(this).requests@ == old(this).requests@ + Seq::new(old(this).children@.len(), |i: int| Request::RemoveChild),
    {
        let ghost r0 = this.requests@;
        let ghost n = this.children@.len();
        while this.children.len() > 0
            invariant
                this.children@.len() <= n,
                this.columns == old(this).columns,
                this.rows == old(this).rows,
                this.requests@ == r0 + Seq::new((n - this.children@.len()) as nat, |i: int| Request::RemoveChild),
            decreases this.children.len(),
        {
            let _child = this.children.remove(0);
            this.requests.push(Request::RemoveChild);
            assert(this.requests@ =~= r0 + Seq::new((n - this.children@.len()) as nat, |i: int| Request::RemoveChild));
        }
        assert(this.requests@ =~= r0 + Seq::new(n, |i: int| Request::RemoveChild));
    }

    /// The identifiers of the children, in order.
    pub fn children_ids(&self) -> (ids: Vec<Option<WidgetId>>)
        ensures
            ids@.len() == self.children@.len(),
            forall|i: int| 0 <= i < ids@.len() ==> ids@[i] == #[trigger] self.children@[i].widget.id,
    {
        let mut ids = Vec::new();
        let mut i: usize = 0;
        while i < self.children.len()
            invariant
                i <= self.children@.len(),
                ids@.len() == i,
                forall|j: int| 0 <= j < i ==> ids@[j] == #[trigger] self.children@[j].widget.id,
            decreases self.children.len() - i,
        {
            ids.push(self.children[i].widget.id);
            i += 1;
        }
        ids
    }

    /// Assigns a cell to every child: children with an explicit column and row
    /// get that cell; the others, in order, get the first free area that fits
    /// them (scanning down the rows of their explicit column, along the columns
    /// of their explicit row, or in row-major order from after the previously
    /// placed child). A child for which no free area fits keeps its previous cell.
    /// Nothing is assigned when the grid has no columns or no rows.
    pub fn assign_cell_to_auto_placed_children(&mut self)
        requires
            old(self).columns@.len() <= u16::MAX,
            old(self).rows@.len() <= u16::MAX,
            all_fit(child_params(old(self).children@), old(self).columns@.len() as int, old(self).rows@.len() as int),
        ensures
            final(self).columns == old(self).columns,
            final(self).rows == old(self).rows,
            final(self).requests == old(self).requests,
            final(self).children@.len() == old(self).children@.len(),
            forall|i: int| 0 <= i < old(self).children@.len() ==> {
                &&& (#[trigger] final(self).children@[i]).widget == old(self).children@[i].widget
                &&& final(self).children@[i].params == old(self).children@[i].params
            },
            old(self).columns@.len() == 0 || old(self).rows@.len() == 0 ==>
                final(self).children@ == old(self).children@,
            old(self).columns@.len() > 0 && old(self).rows@.len() > 0 ==> {
                let params = child_params(old(self).children@);
                let cells = auto_pass(params, old(self).columns@.len() as int, old(self).rows@.len() as int, params).2;
                forall|i: int| 0 <= i < old(self).children@.len() ==>
                    ((#[trigger] final(self).children@[i]).x as int, final(self).children@[i].y as int)
                        == assigned_cell(old(self).children@[i].params, cells[i], old(self).children@[i].x, old(self).children@[i].y)
            },
    {
        if self.columns.len() == 0 || self.rows.len() == 0 {
            return;
        }
        let n_col = self.columns.len();
        let n_row = self.rows.len();
        let ghost old_children = self.children@;
        let ghost params = child_params(old_children);
        let len = self.children.len();
        let mut occ = new_occ(n_col, n_row);
        assert(occ_view(occ@) =~= empty_occ(n_col as int, n_row as int));
        proof { lemma_explicit_occ_shape(params, n_col as int, n_row as int); }

        // Pass 1: place children with fully explicit position.
        let mut i: usize = 0;
        while i < len
            invariant
                len == self.children@.len(),
                len == old_children.len(),
                params == child_params(old_children),
                n_col == self.columns@.len(),
                n_row == self.rows@.len(),
                self.columns == old(self).columns,
                self.rows == old(self).rows,
                self.requests == old(self).requests,
                0 < n_col <= u16::MAX,
                0 < n_row <= u16::MAX,
                all_fit(params, n_col as int, n_row as int),
                i <= len,
                occ_view(occ@) == explicit_occ(params.take(i as int), n_col as int, n_row as int),
                forall|j: int| 0 <= j < len ==> {
                    &&& (#[trigger] self.children@[j]).widget == old_children[j].widget
                    &&& self.children@[j].params == old_children[j].params
                    &&& (j < i && old_children[j].params.col is Some && old_children[j].params.row is Some) ==>
                        self.children@[j].x == old_children[j].params.col.unwrap()
                        && self.children@[j].y == old_children[j].params.row.unwrap()
                    &&& !(j < i && old_children[j].params.col is Some && old_children[j].params.row is Some) ==>
                        self.children@[j].x == old_children[j].x && self.children@[j].y == old_children[j].y
                },
            decreases len - i,
        {
            proof {
                lemma_explicit_occ_shape(params.take(i as int), n_col as int, n_row as int);
                assert(params.take(i + 1).drop_last() == params.take(i as int));
                assert(params[i as int] == old_children[i as int].params);
                assert(params_fit(params[i as int], n_col as int, n_row as int));
            }
            let p = self.children[i].params;
            match (p.col, p.row) {
                (Some(c), Some(r)) => {
                    proof {
                        let v = occ_view(occ@);
                        assert forall|k: int| 0 <= k < n_row implies (#[trigger] occ@[k])@.len() == n_col by {
                            assert(v[k] == occ@[k]@);
                        }
                    }
                    fill(&mut occ, c as usize, r as usize, p.width as usize, p.height as usize);
                    let mut child = self.children.remove(i);
                    child.x = c;
                    child.y = r;
                    self.children.insert(i, child);
                },
                _ => {},
            }
            i += 1;
        }
        proof {
            assert(params.take(len as int) == params);
            lemma_auto_pass_shape(Seq::empty(), n_col as int, n_row as int, params);
        }

        // Pass 2: auto-placement.
        let mut cursor_col: usize = 0;
        let mut cursor_row: usize = 0;
        let ghost mut cells: Seq<Option<(int, int)>> = Seq::empty();
        let mut i: usize = 0;
        assert(params.take(0) == Seq::<GridParams>::empty());
        while i < len
            invariant
                len == self.children@.len(),
                len == old_children.len(),
                params == child_params(old_children),
                n_col == self.columns@.len(),
                n_row == self.rows@.len(),
                self.columns == old(self).columns,
                self.rows == old(self).rows,
                self.requests == old(self).requests,
                0 < n_col <= u16::MAX,
                0 < n_row <= u16::MAX,
                all_fit(params, n_col as int, n_row as int),
                i <= len,
                auto_pass(params.take(i as int), n_col as int, n_row as int, params)
                    == (occ_view(occ@), (cursor_col as int, cursor_row as int), cells),
                forall|j: int| 0 <= j < len ==> {
                    &&& (#[trigger] self.children@[j]).widget == old_children[j].widget
                    &&& self.children@[j].params == old_children[j].params
                    &&& j < i ==> (self.children@[j].x as int, self.children@[j].y as int)
                        == assigned_cell(old_children[j].params, cells[j], old_children[j].x, old_children[j].y)
                    &&& (j >= i && old_children[j].params.col is Some && old_children[j].params.row is Some) ==>
                        self.children@[j].x == old_children[j].params.col.unwrap()
                        && self.children@[j].y == old_children[j].params.row.unwrap()
                    &&& !(j >= i && old_children[j].params.col is Some && old_children[j].params.row is Some) && j >= i ==>
                        self.children@[j].x == old_children[j].x && self.children@[j].y == old_children[j].y
                },
            decreases len - i,
        {
            proof {
                assert(all_fit(params.take(i as int), n_col as int, n_row as int)) by {
                    assert forall|k: int| 0 <= k < params.take(i as int).len() implies
                        params_fit(#[trigger] params.take(i as int)[k], n_col as int, n_row as int) by {
                        assert(params.take(i as int)[k] == params[k]);
                    }
                }
                lemma_auto_pass_shape(params.take(i as int), n_col as int, n_row as int, params);
                assert(params.take(i + 1).drop_last() == params.take(i as int));
                assert(params[i as int] == old_children[i as int].params);
                assert(params_fit(params[i as int], n_col as int, n_row as int));
                lemma_auto_cell(params[i as int], occ_view(occ@), (cursor_col as int, cursor_row as int), n_col as int, n_row as int);
                let v = occ_view(occ@);
                assert forall|k: int| 0 <= k < n_row implies (#[trigger] occ@[k])@.len() == n_col by {
                    assert(v[k] == occ@[k]@);
                }
            }
            let p = self.children[i].params;
            let w = p.width as usize;
            let h = p.height as usize;
            let cell: Option<(usize, usize)> = match (p.col, p.row) {
                (Some(_), Some(_)) => None,
                (Some(c), None) => match find_free_row(&occ, c as usize, w, h, n_col, n_row) {
                    Some(r) => Some((c as usize, r)),
                    None => None,
                },
                (None, Some(r)) => match find_free_col(&occ, r as usize, w, h, n_col, n_row) {
                    Some(c) => Some((c, r as usize)),
                    None => None,
                },
                (None, None) => find_free_cell(&occ, w, h, cursor_col, cursor_row, n_col, n_row),
            };
            match cell {
                Some((c, r)) => {
                    fill(&mut occ, c, r, w, h);
                    let mut child = self.children.remove(i);
                    child.x = c as u16;
                    child.y = r as u16;
                    self.children.insert(i, child);
                    cursor_col = (c + w) % n_col;
                    cursor_row = if cursor_col == 0 { r + 1 } else { r };
                    proof { cells = cells.push(Some((c as int, r as int))); }
                },
                None => {
                    proof { cells = cells.push(None); }
                },
            }
            i += 1;
        }
        proof {
            assert(params.take(len as int) == params);
        }
    }
}


// --- MARK: CONVERSIONS

/// A span of `v` cells, where zero is taken as 1.
pub open spec fn nonzero(v: u16) -> u16 {
    if v == 0 { 1 } else { v }
}

impl Default for GridParams {
    /// No position and a 1×1 span.
    fn default() -> (p: Self)
        ensures
            p == (GridParams { col: None, row: None, width: 1, height: 1 }),
    {
        GridParams::new()
    }
}

impl From<(u16, u16)> for GridParams {
    fn from(v: (u16, u16)) -> (p: Self) {
        let (col, row) = v;
        GridParams::pos(col, row)
    }
}

impl vstd::std_specs::convert::FromSpecImpl<(u16, u16)> for GridParams {
    open spec fn obeys_from_spec() -> bool {
        true
    }

    open spec fn from_spec(v: (u16, u16)) -> Self {
        let (col, row) = v;
        GridParams { col: Some(col), row: Some(row), width: 1, height: 1 }
    }
}

impl From<(u16, u16, u16, u16)> for GridParams {
    fn from(v: (u16, u16, u16, u16)) -> (p: Self) {
        let (col, row, width, height) = v;
        GridParams::pos(col, row).span_or_one(width, height)
    }
}

impl vstd::std_specs::convert::FromSpecImpl<(u16, u16, u16, u16)> for GridParams {
    open spec fn obeys_from_spec() -> bool {
        true
    }

    open spec fn from_spec(v: (u16, u16, u16, u16)) -> Self {
        let (col, row, width, height) = v;
        GridParams { col: Some(col), row: Some(row), width: nonzero(width), height: nonzero(height) }
    }
}

impl From<(u16, ())> for GridParams {
    fn from(v: (u16, ())) -> (p: Self) {
        let (col, ()) = v;
        GridParams::new().with_col(col)
    }
}

impl vstd::std_specs::convert::FromSpecImpl<(u16, ())> for GridParams {
    open spec fn obeys_from_spec() -> bool {
        true
    }

    open spec fn from_spec(v: (u16, ())) -> Self {
        let (col, ()) = v;
        GridParams { col: Some(col), row: None, width: 1, height: 1 }
    }
}

impl From<((), u16)> for GridParams {
    fn from(v: ((), u16)) -> (p: Self) {
        let ((), row) = v;
        GridParams::new().with_row(row)
    }
}

impl vstd::std_specs::convert::FromSpecImpl<((), u16)> for GridParams {
    open spec fn obeys_from_spec() -> bool {
        true
    }

    open spec fn from_spec(v: ((), u16)) -> Self {
        let ((), row) = v;
        GridParams { col: None, row: Some(row), width: 1, height: 1 }
    }
}

impl From<((), u16, u16, u16)> for GridParams {
    fn from(v: ((), u16, u16, u16)) -> (p: Self) {
        let ((), row, width, height) = v;
        GridParams::new().with_row(row).span_or_one(width, height)
    }
}

impl vstd::std_specs::convert::FromSpecImpl<((), u16, u16, u16)> for GridParams {
    open spec fn obeys_from_spec() -> bool {
        true
    }

    open spec fn from_spec(v: ((), u16, u16, u16)) -> Self {
        let ((), row, width, height) = v;
        GridParams { col: None, row: Some(row), width: nonzero(width), height: nonzero(height) }
    }
}

impl From<(u16, (), u16, u16)> for GridParams {
    fn from(v: (u16, (), u16, u16)) -> (p: Self) {
        let (col, (), width, height) = v;
        GridParams::new().with_col(col).span_or_one(width, height)
    }
}

impl vstd::std_specs::convert::FromSpecImpl<(u16, (), u16, u16)> for GridParams {
    open spec fn obeys_from_spec() -> bool {
        true
    }

    open spec fn from_spec(v: (u16, (), u16, u16)) -> Self {
        let (col, (), width, height) = v;
        GridParams { col: Some(col), row: None, width: nonzero(width), height: nonzero(height) }
    }
}

impl From<((), (), u16, u16)> for GridParams {
    fn from(v: ((), (), u16, u16)) -> (p: Self) {
        let ((), (), width, height) = v;
        GridParams::new().span_or_one(width, height)
    }
}

impl vstd::std_specs::convert::FromSpecImpl<((), (), u16, u16)> for GridParams {
    open spec fn obeys_from_spec() -> bool {
        true
    }

    open spec fn from_spec(v: ((), (), u16, u16)) -> Self {
        let ((), (), width, height) = v;
        GridParams { col: None, row: None, width: nonzero(width), height: nonzero(height) }
    }
}

impl From<((), (), u16, ())> for GridParams {
    fn from(v: ((), (), u16, ())) -> (p: Self) {
        let ((), (), width, ()) = v;
        GridParams::new().width_or_one(width)
    }
}

impl vstd::std_specs::convert::FromSpecImpl<((), (), u16, ())> for GridParams {
    open spec fn obeys_from_spec() -> bool {
        true
    }

    open spec fn from_spec(v: ((), (), u16, ())) -> Self {
        let ((), (), width, ()) = v;
        GridParams { col: None, row: None, width: nonzero(width), height: 1 }
    }
}

impl From<((), (), (), u16)> for GridParams {
    fn from(v: ((), (), (), u16)) -> (p: Self) {
        let ((), (), (), height) = v;
        GridParams::new().height_or_one(height)
    }
}

impl vstd::std_specs::convert::FromSpecImpl<((), (), (), u16)> for GridParams {
    open spec fn obeys_from_spec() -> bool {
        true
    }

    open spec fn from_spec(v: ((), (), (), u16)) -> Self {
        let ((), (), (), height) = v;
        GridParams { col: None, row: None, width: 1, height: nonzero(height) }
    }
}

impl From<(u16, u16, (), u16)> for GridParams {
    fn from(v: (u16, u16, (), u16)) -> (p: Self) {
        let (col, row, (), height) = v;
        GridParams::pos(col, row).height_or_one(height)
    }
}

impl vstd::std_specs::convert::FromSpecImpl<(u16, u16, (), u16)> for GridParams {
    open spec fn obeys_from_spec() -> bool {
        true
    }

    open spec fn from_spec(v: (u16, u16, (), u16)) -> Self {
        let (col, row, (), height) = v;
        GridParams { col: Some(col), row: Some(row), width: 1, height: nonzero(height) }
    }
}

impl From<(u16, u16, u16, ())> for GridParams {
    fn from(v: (u16, u16, u16, ())) -> (p: Self) {
        let (col, row, width, ()) = v;
        GridParams::pos(col, row).width_or_one(width)
    }
}

impl vstd::std_specs::convert::FromSpecImpl<(u16, u16, u16, ())> for GridParams {
    open spec fn obeys_from_spec() -> bool {
        true
    }

    open spec fn from_spec(v: (u16, u16, u16, ())) -> Self {
        let (col, row, width, ()) = v;
        GridParams { col: Some(col), row: Some(row), width: nonzero(width), height: 1 }
    }
}

impl From<((), u16, (), u16)> for GridParams {
    fn from(v: ((), u16, (), u16)) -> (p: Self) {
        let ((), row, (), height) = v;
        GridParams::new().with_row(row).height_or_one(height)
    }
}

impl vstd::std_specs::convert::FromSpecImpl<((), u16, (), u16)> for GridParams {
    open spec fn obeys_from_spec() -> bool {
        true
    }

    open spec fn from_spec(v: ((), u16, (), u16)) -> Self {
        let ((), row, (), height) = v;
        GridParams { col: None, row: Some(row), width: 1, height: nonzero(height) }
    }
}

impl From<((), u16, u16, ())> for GridParams {
    fn from(v: ((), u16, u16, ())) -> (p: Self) {
        let ((), row, width, ()) = v;
        GridParams::new().with_row(row).width_or_one(width)
    }
}

impl vstd::std_specs::convert::FromSpecImpl<((), u16, u16, ())> for GridParams {
    open spec fn obeys_from_spec() -> bool {
        true
    }

    open spec fn from_spec(v: ((), u16, u16, ())) -> Self {
        let ((), row, width, ()) = v;
        GridParams { col: None, row: Some(row), width: nonzero(width), height: 1 }
    }
}

impl From<(u16, (), (), u16)> for GridParams {
    fn from(v: (u16, (), (), u16)) -> (p: Self) {
        let (col, (), (), height) = v;
        GridParams::new().with_col(col).height_or_one(height)
    }
}

impl vstd::std_specs::convert::FromSpecImpl<(u16, (), (), u16)> for GridParams {
    open spec fn obeys_from_spec() -> bool {
        true
    }

    open spec fn from_spec(v: (u16, (), (), u16)) -> Self {
        let (col, (), (), height) = v;
        GridParams { col: Some(col), row: None, width: 1, height: nonzero(height) }
    }
}

impl From<(u16, (), u16, ())> for GridParams {
    fn from(v: (u16, (), u16, ())) -> (p: Self) {
        let (col, (), width, ()) = v;
        GridParams::new().with_col(col).width_or_one(width)
    }
}

impl vstd::std_specs::convert::FromSpecImpl<(u16, (), u16, ())> for GridParams {
    open spec fn obeys_from_spec() -> bool {
        true
    }

    open spec fn from_spec(v: (u16, (), u16, ())) -> Self {
        let (col, (), width, ()) = v;
        GridParams { col: Some(col), row: None, width: nonzero(width), height: 1 }
    }
}

impl From<()> for GridParams {
    fn from(v: ()) -> (p: Self) {
        let () = v;
        GridParams::new()
    }
}

impl vstd::std_specs::convert::FromSpecImpl<()> for GridParams {
    open spec fn obeys_from_spec() -> bool {
        true
    }

    open spec fn from_spec(v: ()) -> Self {
        let () = v;
        GridParams { col: None, row: None, width: 1, height: 1 }
    }
}

impl<W> Grid<W> {
    /// The role the widget reports to accessibility.
    pub fn accessibility_role(&self) -> (role: AccessRole)
        ensures
            role == AccessRole::GenericContainer,
    {
        AccessRole::GenericContainer
    }
}

} // verus!
