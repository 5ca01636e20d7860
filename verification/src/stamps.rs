//! Which modules are stamped: the dark ones, but for those that a finder
//! shape stands for and those that the cutout hides. Each is stamped once.

use crate::geometry::{cutout_first, cutout_last, cutout_side, in_cutout, in_finder_zone};
use crate::qr::QrKind;
use crate::symbol::SymbolView;
use vstd::prelude::*;

verus! {

/// A place in the grid.
pub struct Cell {
    pub col: int,
    pub row: int,
}

/// The place of the module at position `index` of `dark`.
pub open spec fn cell_at(s: SymbolView, index: int) -> Cell {
    Cell { col: s.col(index), row: s.row(index) }
}

/// Whether the module at position `index` gets a stamp of its own: it is
/// dark, no finder shape stands for it, and the cutout does not hide it.
pub open spec fn is_stamped(s: SymbolView, qr_kind: QrKind, remove_middle: bool, index: int)
    -> bool {
    &&& 0 <= index < s.dark.len()
    &&& s.dark[index]
    &&& !(qr_kind == QrKind::Circle && in_finder_zone(s.width as int, s.col(index), s.row(index)))
    &&& !(remove_middle && in_cutout(s.width, s.level, s.col(index), s.row(index)))
}

/// The places stamped among the first `upto` modules, in the order of
/// `dark`: row by row, left to right.
pub open spec fn stamps(s: SymbolView, qr_kind: QrKind, remove_middle: bool, upto: nat) -> Seq<Cell>
    decreases upto,
{
    if upto == 0 {
        Seq::empty()
    } else {
        let before = stamps(s, qr_kind, remove_middle, (upto - 1) as nat);
        if is_stamped(s, qr_kind, remove_middle, upto - 1) {
            before.push(cell_at(s, upto - 1))
        } else {
            before
        }
    }
}

/// A position of `dark` names a column and a row inside the grid.
pub proof fn lemma_cell_in_grid(s: SymbolView, index: int)
    requires
        s.wf(),
        0 <= index < s.dark.len(),
    ensures
        s.width > 0,
        0 <= s.col(index) < s.width,
        0 <= s.row(index) < s.width,
        index == s.row(index) * s.width + s.col(index),
{
    let w = s.width as int;
    assert(w > 0) by (nonlinear_arith)
        requires
            w >= 0,
            w * w > 0,
    ;
    vstd::arithmetic::div_mod::lemma_fundamental_div_mod(index, w);
    let q = index / w;
    assert(0 <= q < w) by (nonlinear_arith)
        requires
            w > 0,
            0 <= index < w * w,
            index == w * q + index % w,
            0 <= index % w < w,
    ;
    assert(q * w == w * q) by (nonlinear_arith);
}

/// Two positions of `dark` name two places.
pub proof fn lemma_cells_differ(s: SymbolView, i: int, j: int)
    requires
        s.wf(),
        0 <= i < s.dark.len(),
        0 <= j < s.dark.len(),
        i != j,
    ensures
        cell_at(s, i) != cell_at(s, j),
{
    lemma_cell_in_grid(s, i);
    lemma_cell_in_grid(s, j);
}

/// Among the first `upto` modules, the place of the module at `index` is
/// stamped once if that module is one of them and is to be stamped, and not
/// at all otherwise.
pub proof fn lemma_stamped_once_upto(
    s: SymbolView,
    qr_kind: QrKind,
    remove_middle: bool,
    index: int,
    upto: nat,
)
    requires
        s.wf(),
        0 <= index < s.dark.len(),
        upto <= s.dark.len(),
    ensures
        stamps(s, qr_kind, remove_middle, upto).to_multiset().count(cell_at(s, index)) == (if index
            < upto && is_stamped(s, qr_kind, remove_middle, index) {
            1nat
        } else {
            0nat
        }),
    decreases upto,
{
    broadcast use vstd::multiset::group_multiset_axioms;

    let cell = cell_at(s, index);
    if upto == 0 {
        vstd::seq_lib::to_multiset_contains(stamps(s, qr_kind, remove_middle, upto), cell);
    } else {
        let last = upto - 1;
        let before = stamps(s, qr_kind, remove_middle, last as nat);
        lemma_stamped_once_upto(s, qr_kind, remove_middle, index, last as nat);
        if is_stamped(s, qr_kind, remove_middle, last) {
            vstd::seq_lib::to_multiset_build(before, cell_at(s, last));
            if last != index {
                lemma_cells_differ(s, last, index);
            }
        }
    }
}

/// Cell coverage: in the drawing of a symbol, the place of each module that
/// is dark and neither stood for by a finder shape nor hidden by the cutout
/// is stamped exactly once; the place of any other module, a light one above
/// all, is not stamped.
pub proof fn lemma_cell_coverage(s: SymbolView, qr_kind: QrKind, remove_middle: bool, index: int)
    requires
        s.wf(),
        0 <= index < s.dark.len(),
    ensures
        stamps(s, qr_kind, remove_middle, s.dark.len()).to_multiset().count(cell_at(s, index)) == (
        if is_stamped(s, qr_kind, remove_middle, index) {
            1nat
        } else {
            0nat
        }),
        !s.dark[index] ==> !stamps(s, qr_kind, remove_middle, s.dark.len()).contains(
            cell_at(s, index),
        ),
{
    lemma_stamped_once_upto(s, qr_kind, remove_middle, index, s.dark.len());
    vstd::seq_lib::to_multiset_contains(
        stamps(s, qr_kind, remove_middle, s.dark.len()),
        cell_at(s, index),
    );
}

/// Every stamp is the place of a module that is to be stamped; the stamps
/// come in the order of `dark`.
pub proof fn lemma_stamps_are_modules(
    s: SymbolView,
    qr_kind: QrKind,
    remove_middle: bool,
    upto: nat,
    k: int,
) -> (index: int)
    requires
        s.wf(),
        upto <= s.dark.len(),
        0 <= k < stamps(s, qr_kind, remove_middle, upto).len(),
    ensures
        0 <= index < upto,
        is_stamped(s, qr_kind, remove_middle, index),
        stamps(s, qr_kind, remove_middle, upto)[k] == cell_at(s, index),
        stamps(s, qr_kind, remove_middle, index as nat).len() == k,
    decreases upto,
{
    let last = (upto - 1) as nat;
    let before = stamps(s, qr_kind, remove_middle, last);
    if is_stamped(s, qr_kind, remove_middle, last as int) && k == before.len() {
        last as int
    } else {
        lemma_stamps_are_modules(s, qr_kind, remove_middle, last, k)
    }
}

/// Finder shapes stand for their zones: with circles, no place in any of
/// the three finder zones is stamped.
pub proof fn lemma_finder_zones_unstamped(s: SymbolView, remove_middle: bool, index: int)
    requires
        s.wf(),
        0 <= index < s.dark.len(),
        in_finder_zone(s.width as int, s.col(index), s.row(index)),
    ensures
        !stamps(s, QrKind::Circle, remove_middle, s.dark.len()).contains(cell_at(s, index)),
{
    lemma_cell_coverage(s, QrKind::Circle, remove_middle, index);
    vstd::seq_lib::to_multiset_contains(
        stamps(s, QrKind::Circle, remove_middle, s.dark.len()),
        cell_at(s, index),
    );
}

/// With squares a finder zone is drawn like the rest of the grid: whether a
/// place is stamped depends on its module being dark and on the cutout, not
/// on the zone.
pub proof fn lemma_squares_know_no_zones(s: SymbolView, remove_middle: bool, index: int)
    requires
        s.wf(),
        0 <= index < s.dark.len(),
    ensures
        stamps(s, QrKind::Square, remove_middle, s.dark.len()).to_multiset().count(
            cell_at(s, index),
        ) == (if s.dark[index] && !(remove_middle && in_cutout(
            s.width,
            s.level,
            s.col(index),
            s.row(index),
        )) {
            1nat
        } else {
            0nat
        }),
{
    lemma_cell_coverage(s, QrKind::Square, remove_middle, index);
}

/// The places outside the box of `side` by `side` modules whose top left
/// module stands in column `x` of row `y`.
pub open spec fn outside_box(x: int, y: int, side: int) -> spec_fn(Cell) -> bool {
    |cell: Cell| !(x <= cell.col < x + side && y <= cell.row < y + side)
}

/// The cutout takes away the stamps in its box and nothing else: with it,
/// the stamps are those made without it that lie outside the box, in the
/// same order. Where the side rounds down to nothing, the stamps are those
/// made without it.
pub proof fn lemma_cutout_removes_box(s: SymbolView, qr_kind: QrKind, upto: nat)
    ensures
        cutout_side(s.width, s.level) > 0 ==> stamps(s, qr_kind, true, upto) == stamps(
            s,
            qr_kind,
            false,
            upto,
        ).filter(
            outside_box(
                cutout_first(s.width, s.level),
                cutout_first(s.width, s.level),
                cutout_last(s.width, s.level) - cutout_first(s.width, s.level) + 1,
            ),
        ),
        cutout_side(s.width, s.level) == 0 ==> stamps(s, qr_kind, true, upto) == stamps(
            s,
            qr_kind,
            false,
            upto,
        ),
    decreases upto,
{
    reveal(Seq::filter);
    if upto > 0 {
        let last = (upto - 1) as nat;
        lemma_cutout_removes_box(s, qr_kind, last);
        let before = stamps(s, qr_kind, false, last);
        if is_stamped(s, qr_kind, false, last as int) {
            let all = before.push(cell_at(s, last as int));
            assert(all.drop_last() =~= before);
        }
    }
}

} // verus!
