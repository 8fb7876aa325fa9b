use vstd::prelude::*;

verus! {

/// The value of a cell that holds no symbol.
pub const EMPTY: u64 = 0;

/// The number of cells on the board, numbered row by row.
pub const CELLS: usize = 9;

/// The number of winning lines: three rows, three columns, two diagonals.
pub const LINES: usize = 8;

/// The three cells of winning line `k`, for `0 <= k < 8`.
pub open spec fn line(k: int) -> (int, int, int) {
    if k == 0 {
        (0, 1, 2)
    } else if k == 1 {
        (3, 4, 5)
    } else if k == 2 {
        (6, 7, 8)
    } else if k == 3 {
        (0, 3, 6)
    } else if k == 4 {
        (1, 4, 7)
    } else if k == 5 {
        (2, 5, 8)
    } else if k == 6 {
        (0, 4, 8)
    } else {
        (2, 4, 6)
    }
}

/// Line `k` of board `b` holds symbol `s` in all three of its cells.
pub open spec fn line_complete(b: Seq<u64>, k: int, s: u64) -> bool {
    let (x, y, z) = line(k);
    b[x] == s && b[y] == s && b[z] == s
}

/// Symbol `s` completes at least one winning line of `b`.
pub open spec fn wins(b: Seq<u64>, s: u64) -> bool {
    exists|k: int| 0 <= k < 8 && #[trigger] line_complete(b, k, s)
}

/// Every cell of `b` holds a symbol.
pub open spec fn is_full(b: Seq<u64>) -> bool {
    forall|i: int| 0 <= i < 9 ==> #[trigger] b[i] != EMPTY
}

/// The board with no symbol on it.
pub open spec fn empty_board() -> Seq<u64> {
    Seq::new(9, |i: int| EMPTY)
}

/// The cells of line `k`, for `k < 8`.
fn line_cells(k: usize) -> (r: (usize, usize, usize))
    requires
        k < LINES,
    ensures
        line(k as int) == (r.0 as int, r.1 as int, r.2 as int),
        r.0 < CELLS,
        r.1 < CELLS,
        r.2 < CELLS,
{
    match k {
        0 => (0, 1, 2),
        1 => (3, 4, 5),
        2 => (6, 7, 8),
        3 => (0, 3, 6),
        4 => (1, 4, 7),
        5 => (2, 5, 8),
        6 => (0, 4, 8),
        _ => (2, 4, 6),
    }
}

/// Whether `symbol` has completed a row, a column or a diagonal.
/// The empty value never wins.
pub fn has_won(board: &Vec<u64>, symbol: u64) -> (r: bool)
    requires
        board@.len() == CELLS,
    ensures
        r == (symbol != EMPTY && wins(board@, symbol)),
{
    if symbol == EMPTY {
        return false;
    }
    let mut k: usize = 0;
    while k < LINES
        invariant
            k <= LINES,
            symbol != EMPTY,
            board@.len() == CELLS,
            forall|j: int| 0 <= j < k ==> !line_complete(board@, j, symbol),
        decreases LINES - k,
    {
        let (x, y, z) = line_cells(k);
        if board[x] == symbol && board[y] == symbol && board[z] == symbol {
            assert(line_complete(board@, k as int, symbol));
            return true;
        }
        k = k + 1;
    }
    false
}

/// Whether cell `cell` of the board holds no symbol.
pub fn is_cell_empty(board: &Vec<u64>, cell: usize) -> (r: bool)
    requires
        cell < board@.len(),
    ensures
        r == (board@[cell as int] == EMPTY),
{
    board[cell] == EMPTY
}

/// Whether all nine cells hold a symbol.
pub fn is_board_filled(board: &Vec<u64>) -> (r: bool)
    requires
        board@.len() == CELLS,
    ensures
        r == is_full(board@),
{
    let mut i: usize = 0;
    while i < CELLS
        invariant
            i <= CELLS,
            board@.len() == CELLS,
            forall|j: int| 0 <= j < i ==> board@[j] != EMPTY,
        decreases CELLS - i,
    {
        if board[i] == EMPTY {
            return false;
        }
        i = i + 1;
    }
    true
}

/// A board with every cell empty.
pub fn clear_board() -> (r: Vec<u64>)
    ensures
        r@ == empty_board(),
{
    let r: Vec<u64> = vec![EMPTY; CELLS];
    assert(r@ =~= empty_board());
    r
}

} // verus!
