//! Tilt maze: the grid, its walls and goal. The ball's motion (floating
//! point) is integrated by the caller, which asks here about cells.

use vstd::prelude::*;

verus! {

pub const ROWS: usize = 12;
pub const COLS: usize = 10;
/// Cell size in pixels (the smaller of the two fits of the grid on the panel).
pub const CELL: i32 = 34;
/// Left edge of the grid.
pub const OX: i32 = 14;
/// Top edge of the grid.
pub const OY: i32 = 20;

/// Cell kinds.
pub const EMPTY: u8 = 0;
pub const WALL: u8 = 1;
pub const START: u8 = 2;
pub const GOAL: u8 = 3;

/// The maze, row by row.
pub const MAZE: [[u8; 10]; 12] = [
    [1, 1, 1, 1, 1, 1, 1, 1, 1, 1],
    [1, 2, 0, 0, 1, 0, 0, 0, 0, 1],
    [1, 0, 1, 0, 1, 0, 1, 1, 0, 1],
    [1, 0, 1, 0, 0, 0, 0, 1, 0, 1],
    [1, 0, 1, 1, 1, 1, 0, 1, 0, 1],
    [1, 0, 0, 0, 0, 1, 0, 0, 0, 1],
    [1, 1, 1, 1, 0, 1, 1, 1, 0, 1],
    [1, 0, 0, 0, 0, 0, 0, 1, 0, 1],
    [1, 0, 1, 1, 1, 1, 0, 1, 0, 1],
    [1, 0, 1, 0, 0, 0, 0, 0, 0, 1],
    [1, 0, 0, 0, 1, 1, 1, 1, 3, 1],
    [1, 1, 1, 1, 1, 1, 1, 1, 1, 1],
];

/// The kind of cell (row `r`, column `c`).
pub open spec fn cell(r: int, c: int) -> u8 {
    MAZE@[r]@[c]
}

/// Cell (c, r) holds `val` and no cell before it in row-major order does.
pub open spec fn first_cell(val: u8, c: int, r: int) -> bool {
    &&& 0 <= r < ROWS && 0 <= c < COLS
    &&& cell(r, c) == val
    &&& forall|r2: int, c2: int| 0 <= r2 < ROWS && 0 <= c2 < COLS && (r2 < r || (r2 == r && c2 < c))
        ==> cell(r2, c2) != val
}

/// The first cell holding `val` as (column, row), or (1, 1) when none does.
pub fn find_cell(val: u8) -> (r: (usize, usize))
    ensures
        (exists|c: int, rr: int| 0 <= rr < ROWS && 0 <= c < COLS && cell(rr, c) == val) ==> first_cell(val, r.0 as int, r.1 as int),
        !(exists|c: int, rr: int| 0 <= rr < ROWS && 0 <= c < COLS && cell(rr, c) == val) ==> r == (1usize, 1usize),
{
    let mut row: usize = 0;
    while row < ROWS
        invariant
            row <= ROWS,
            forall|r2: int, c2: int| 0 <= r2 < row && 0 <= c2 < COLS ==> cell(r2, c2) != val,
        decreases ROWS - row,
    {
        let mut col: usize = 0;
        while col < COLS
            invariant
                row < ROWS,
                col <= COLS,
                forall|r2: int, c2: int| 0 <= r2 < row && 0 <= c2 < COLS ==> cell(r2, c2) != val,
                forall|c2: int| 0 <= c2 < col ==> cell(row as int, c2) != val,
            decreases COLS - col,
        {
            if MAZE[row][col] == val {
                return (col, row);
            }
            col += 1;
        }
        row += 1;
    }
    (1, 1)
}

/// Grid position (gx, gy) is a wall; everything off the grid counts as wall.
pub open spec fn spec_is_wall(gx: i32, gy: i32) -> bool {
    gx < 0 || gy < 0 || gx >= COLS || gy >= ROWS || cell(gy as int, gx as int) == WALL
}

/// Whether the ball may not enter (gx, gy).
pub fn is_wall(gx: i32, gy: i32) -> (r: bool)
    ensures
        r == spec_is_wall(gx, gy),
{
    if gx < 0 || gy < 0 || gx >= COLS as i32 || gy >= ROWS as i32 {
        return true;
    }
    MAZE[gy as usize][gx as usize] == WALL
}

/// Whether (gx, gy) is the goal cell.
pub fn is_goal(gx: usize, gy: usize) -> (r: bool)
    ensures
        r == (gx < COLS && gy < ROWS && cell(gy as int, gx as int) == GOAL),
{
    gx < COLS && gy < ROWS && MAZE[gy][gx] == GOAL
}

} // verus!
