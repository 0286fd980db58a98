use vstd::prelude::*;
use vstd::arithmetic::div_mod::lemma_fundamental_div_mod_converse;
use vstd::arithmetic::div_mod::lemma_fundamental_div_mod;
use crate::game_data::ComputeUniform;

verus! {

/// Invocations along each edge of a compute workgroup.
pub const WORKGROUP_SIZE: u32 = 16;

/// Workgroups needed along one axis so that `cells` invocations fit: the
/// quotient `cells / 16`, rounded up.
pub open spec fn spec_dispatch_count(cells: int) -> int {
    (cells + 15) / 16
}

/// Whether the cell at (`row`, `col`) lies in the grid and is alive. Cells
/// are stored row by row; any nonzero word is a live cell. Positions outside
/// the grid are never alive: the grid does not wrap around.
pub open spec fn cell_alive(state: Seq<u32>, rows: int, cols: int, row: int, col: int) -> bool {
    &&& 0 <= row < rows
    &&& 0 <= col < cols
    &&& state[row * cols + col] != 0
}

/// One if the cell at (`row`, `col`) is alive, zero otherwise.
pub open spec fn alive_count(state: Seq<u32>, rows: int, cols: int, row: int, col: int) -> int {
    if cell_alive(state, rows, cols, row, col) {
        1
    } else {
        0
    }
}

/// Live cells among the eight neighbours of (`row`, `col`).
pub open spec fn live_neighbors(state: Seq<u32>, rows: int, cols: int, row: int, col: int) -> int {
    alive_count(state, rows, cols, row - 1, col - 1)
        + alive_count(state, rows, cols, row - 1, col)
        + alive_count(state, rows, cols, row - 1, col + 1)
        + alive_count(state, rows, cols, row, col - 1)
        + alive_count(state, rows, cols, row, col + 1)
        + alive_count(state, rows, cols, row + 1, col - 1)
        + alive_count(state, rows, cols, row + 1, col)
        + alive_count(state, rows, cols, row + 1, col + 1)
}

/// The rule of the automaton: a live cell survives with two or three live
/// neighbours, a dead cell is born with exactly three, every other cell is
/// dead in the next generation.
pub open spec fn rule(alive: bool, neighbors: int) -> u32 {
    if alive && (neighbors == 2 || neighbors == 3) {
        1
    } else if !alive && neighbors == 3 {
        1
    } else {
        0
    }
}

/// The next value of the cell at (`row`, `col`).
pub open spec fn next_cell(state: Seq<u32>, rows: int, cols: int, row: int, col: int) -> u32 {
    rule(cell_alive(state, rows, cols, row, col), live_neighbors(state, rows, cols, row, col))
}

/// The generation that follows `state` on a grid of `rows` by `cols` cells.
pub open spec fn next_state(state: Seq<u32>, rows: int, cols: int) -> Seq<u32> {
    Seq::new((rows * cols) as nat, |i: int| next_cell(state, rows, cols, i / cols, i % cols))
}

/// What the next-state buffer holds after a dispatch of `groups_x` by
/// `groups_y` workgroups: the cells that an invocation reaches hold their
/// next value, the others what `previous` held there.
pub open spec fn dispatch_result(
    current: Seq<u32>,
    previous: Seq<u32>,
    rows: int,
    cols: int,
    groups_x: int,
    groups_y: int,
) -> Seq<u32> {
    Seq::new(
        (rows * cols) as nat,
        |i: int|
            if i % cols < groups_x * 16 && i / cols < groups_y * 16 {
                next_cell(current, rows, cols, i / cols, i % cols)
            } else {
                previous[i]
            },
    )
}

/// `state` after `steps` generations.
pub open spec fn state_after(state: Seq<u32>, rows: int, cols: int, steps: nat) -> Seq<u32>
    decreases steps,
{
    if steps == 0 {
        state
    } else {
        next_state(state_after(state, rows, cols, (steps - 1) as nat), rows, cols)
    }
}

/// Whether no cell of `state` is alive.
pub open spec fn all_dead(state: Seq<u32>) -> bool {
    forall|i: int| 0 <= i < state.len() ==> state[i] == 0
}

/// The cell an invocation works on along one axis: its workgroup's offset
/// plus its place in the workgroup.
pub open spec fn invocation_cell(group: int, local: int) -> int {
    group * 16 + local
}

/// The row-major index of an in-grid cell is in range, and splits back into
/// its row and column.
pub proof fn lemma_cell_index(rows: int, cols: int, row: int, col: int)
    requires
        0 <= row < rows,
        0 <= col < cols,
    ensures
        0 <= row * cols + col < rows * cols,
        (row * cols + col) / cols == row,
        (row * cols + col) % cols == col,
{
    assert(0 <= row * cols && row * cols + cols <= rows * cols) by (nonlinear_arith)
        requires
            0 <= row < rows,
            0 < cols,
    ;
    lemma_fundamental_div_mod_converse(row * cols + col, cols, row, col);
}

/// Every index of a grid's buffer names one cell of the grid.
pub proof fn lemma_index_cell(rows: int, cols: int, i: int)
    requires
        0 <= i < rows * cols,
        0 < cols,
    ensures
        0 <= i / cols < rows,
        0 <= i % cols < cols,
        (i / cols) * cols + i % cols == i,
{
    lemma_fundamental_div_mod(i, cols);
    let q = i / cols;
    let r = i % cols;
    assert(0 <= r < cols);
    assert(cols * q == q * cols) by (nonlinear_arith);
    assert(0 <= q < rows) by (nonlinear_arith)
        requires
            q * cols + r == i,
            0 <= r < cols,
            0 <= i < rows * cols,
    ;
}

/// A dispatch of `spec_dispatch_count(cells)` workgroups reaches every cell
/// along an axis through exactly one invocation, and no smaller dispatch
/// does: the last workgroup still holds a cell.
pub proof fn lemma_dispatch_covers_axis(cells: int, cell: int)
    requires
        0 <= cell < cells,
    ensures
        0 <= cell / 16 < spec_dispatch_count(cells),
        0 <= cell % 16 < 16,
        invocation_cell(cell / 16, cell % 16) == cell,
        forall|group: int, local: int|
            0 <= local < 16 && invocation_cell(group, local) == cell ==> group == cell / 16
                && local == cell % 16,
        (spec_dispatch_count(cells) - 1) * 16 < cells,
{
    assert forall|group: int, local: int|
        0 <= local < 16 && invocation_cell(group, local) == cell implies group == cell / 16
        && local == cell % 16 by {
        lemma_fundamental_div_mod_converse(cell, 16, group, local);
    }
}

/// A dispatch of `[ceil(cols / 16), ceil(rows / 16)]` workgroups of 16 by 16
/// invocations covers every cell of the grid exactly once: each cell has an
/// invocation inside the dispatch, and only one invocation maps to it.
pub proof fn lemma_dispatch_covers_grid(rows: int, cols: int, row: int, col: int)
    requires
        0 <= row < rows,
        0 <= col < cols,
    ensures
        0 <= col / 16 < spec_dispatch_count(cols),
        0 <= row / 16 < spec_dispatch_count(rows),
        invocation_cell(col / 16, col % 16) == col,
        invocation_cell(row / 16, row % 16) == row,
        forall|group_x: int, local_x: int, group_y: int, local_y: int|
            0 <= local_x < 16 && 0 <= local_y < 16 && invocation_cell(group_x, local_x) == col
                && invocation_cell(group_y, local_y) == row ==> group_x == col / 16 && local_x
                == col % 16 && group_y == row / 16 && local_y == row % 16,
{
    lemma_dispatch_covers_axis(cols, col);
    lemma_dispatch_covers_axis(rows, row);
}

/// A dispatch that covers the grid writes the whole next generation,
/// whatever the next-state buffer held before.
pub proof fn lemma_covering_dispatch(
    current: Seq<u32>,
    previous: Seq<u32>,
    rows: int,
    cols: int,
    groups_x: int,
    groups_y: int,
)
    requires
        0 <= rows,
        0 <= cols,
        groups_x >= spec_dispatch_count(cols),
        groups_y >= spec_dispatch_count(rows),
    ensures
        dispatch_result(current, previous, rows, cols, groups_x, groups_y) == next_state(
            current,
            rows,
            cols,
        ),
{
    let result = dispatch_result(current, previous, rows, cols, groups_x, groups_y);
    let next = next_state(current, rows, cols);
    assert forall|i: int| 0 <= i < result.len() implies result[i] == next[i] by {
        assert(0 < cols) by (nonlinear_arith)
            requires
                0 <= i < rows * cols,
                0 <= cols,
        ;
        lemma_index_cell(rows, cols, i);
    }
    assert(result =~= next);
}

/// A grid without live cells has no live cells in the next generation.
pub proof fn lemma_dead_grid_stays_dead(state: Seq<u32>, rows: int, cols: int)
    requires
        0 <= rows,
        0 <= cols,
        state.len() == rows * cols,
        all_dead(state),
    ensures
        next_state(state, rows, cols) == state,
        all_dead(next_state(state, rows, cols)),
{
    let next = next_state(state, rows, cols);
    assert forall|i: int| 0 <= i < next.len() implies next[i] == 0 by {
        let row = i / cols;
        let col = i % cols;
        assert forall|r: int, c: int| !cell_alive(state, rows, cols, r, c) by {
            if 0 <= r < rows && 0 <= c < cols {
                lemma_cell_index(rows, cols, r, c);
            }
        }
        assert(live_neighbors(state, rows, cols, row, col) == 0);
    }
    assert(next =~= state);
}

/// A grid without live cells stays as it is, however many generations pass.
pub proof fn lemma_dead_grid_is_fixed(state: Seq<u32>, rows: int, cols: int, steps: nat)
    requires
        0 <= rows,
        0 <= cols,
        state.len() == rows * cols,
        all_dead(state),
    ensures
        state_after(state, rows, cols, steps) == state,
    decreases steps,
{
    if steps > 0 {
        lemma_dead_grid_is_fixed(state, rows, cols, (steps - 1) as nat);
        lemma_dead_grid_stays_dead(state, rows, cols);
    }
}

/// Whether the glider has a live cell at (`row`, `col`) of the four by four
/// box it moves through, in the given phase of its cycle. Phase 0 is the
/// glider in the top left three by three cells of the box; after phase 3 it
/// is in phase 0 again, one cell further down and to the right.
pub open spec fn glider_cell(phase: int, row: int, col: int) -> bool {
    if phase == 0 {
        (row == 0 && col == 1) || (row == 1 && col == 2) || (row == 2 && 0 <= col <= 2)
    } else if phase == 1 {
        (row == 1 && col == 0) || (row == 1 && col == 2) || (row == 2 && 1 <= col <= 2) || (row
            == 3 && col == 1)
    } else if phase == 2 {
        (row == 1 && col == 2) || (row == 2 && col == 0) || (row == 2 && col == 2) || (row == 3
            && 1 <= col <= 2)
    } else if phase == 3 {
        (row == 1 && col == 1) || (row == 2 && 2 <= col <= 3) || (row == 3 && 1 <= col <= 2)
    } else {
        false
    }
}

/// The grid of `rows` by `cols` cells that holds nothing but a glider, in
/// the given phase, with the top left corner of its box at (`top`, `left`).
pub open spec fn glider(rows: int, cols: int, phase: int, top: int, left: int) -> Seq<u32> {
    Seq::new(
        (rows * cols) as nat,
        |i: int|
            if glider_cell(phase, i / cols - top, i % cols - left) {
                1u32
            } else {
                0u32
            },
    )
}

/// Whether the live cells of `state` are those of a glider, in the given
/// phase, with the top left corner of its box at (`top`, `left`), and every
/// other cell is dead.
pub open spec fn shows_glider(
    state: Seq<u32>,
    rows: int,
    cols: int,
    phase: int,
    top: int,
    left: int,
) -> bool {
    &&& state.len() == rows * cols
    &&& forall|row: int, col: int|
        0 <= row < rows && 0 <= col < cols ==> (#[trigger] cell_alive(state, rows, cols, row, col)
            <==> glider_cell(phase, row - top, col - left))
}

/// One if the glider has a live cell at (`row`, `col`) of its box, zero
/// otherwise.
spec fn glider_count(phase: int, row: int, col: int) -> int {
    if glider_cell(phase, row, col) {
        1
    } else {
        0
    }
}

/// Live cells of the glider among the eight neighbours of (`row`, `col`).
spec fn glider_neighbors(phase: int, row: int, col: int) -> int {
    glider_count(phase, row - 1, col - 1) + glider_count(phase, row - 1, col) + glider_count(
        phase,
        row - 1,
        col + 1,
    ) + glider_count(phase, row, col - 1) + glider_count(phase, row, col + 1) + glider_count(
        phase,
        row + 1,
        col - 1,
    ) + glider_count(phase, row + 1, col) + glider_count(phase, row + 1, col + 1)
}

/// The rule takes each phase of the glider to the next, cell by cell, and
/// the last phase to the first, one cell further down and to the right.
proof fn lemma_glider_rule(phase: int, row: int, col: int)
    requires
        0 <= phase <= 3,
    ensures
        rule(glider_cell(phase, row, col), glider_neighbors(phase, row, col)) == (if phase < 3 {
            glider_count(phase + 1, row, col)
        } else {
            glider_count(0, row - 1, col - 1)
        }),
{
}

/// The grid that holds nothing but a glider shows that glider.
pub proof fn lemma_glider_shows(rows: int, cols: int, phase: int, top: int, left: int)
    requires
        0 <= rows,
        0 <= cols,
    ensures
        shows_glider(glider(rows, cols, phase, top, left), rows, cols, phase, top, left),
{
    let state = glider(rows, cols, phase, top, left);
    assert forall|row: int, col: int| 0 <= row < rows && 0 <= col < cols implies (
    #[trigger] cell_alive(state, rows, cols, row, col) <==> glider_cell(
        phase,
        row - top,
        col - left,
    )) by {
        lemma_cell_index(rows, cols, row, col);
    }
}

/// One generation takes a glider with room around its box to its next
/// phase, and from the last phase to the first, one cell further down and
/// to the right. Nothing else comes to life.
pub proof fn lemma_glider_generation(
    state: Seq<u32>,
    rows: int,
    cols: int,
    phase: int,
    top: int,
    left: int,
)
    requires
        0 <= phase <= 3,
        0 <= top,
        0 <= left,
        top + 4 <= rows,
        left + 4 <= cols,
        shows_glider(state, rows, cols, phase, top, left),
    ensures
        next_state(state, rows, cols) == (if phase < 3 {
            glider(rows, cols, phase + 1, top, left)
        } else {
            glider(rows, cols, 0, top + 1, left + 1)
        }),
{
    let next = next_state(state, rows, cols);
    let target = if phase < 3 {
        glider(rows, cols, phase + 1, top, left)
    } else {
        glider(rows, cols, 0, top + 1, left + 1)
    };
    assert forall|row: int, col: int|
        alive_count(state, rows, cols, row, col) == #[trigger] glider_count(
            phase,
            row - top,
            col - left,
        ) by {
        if 0 <= row < rows && 0 <= col < cols {
            assert(cell_alive(state, rows, cols, row, col) <==> glider_cell(
                phase,
                row - top,
                col - left,
            ));
        }
    }
    assert forall|i: int| 0 <= i < next.len() implies next[i] == target[i] by {
        lemma_index_cell(rows, cols, i);
        let row = i / cols;
        let col = i % cols;
        let r = row - top;
        let c = col - left;
        assert(glider_count(phase, r - 1, c - 1) == alive_count(state, rows, cols, row - 1, col - 1));
        assert(glider_count(phase, r - 1, c) == alive_count(state, rows, cols, row - 1, col));
        assert(glider_count(phase, r - 1, c + 1) == alive_count(state, rows, cols, row - 1, col + 1));
        assert(glider_count(phase, r, c - 1) == alive_count(state, rows, cols, row, col - 1));
        assert(glider_count(phase, r, c) == alive_count(state, rows, cols, row, col));
        assert(glider_count(phase, r, c + 1) == alive_count(state, rows, cols, row, col + 1));
        assert(glider_count(phase, r + 1, c - 1) == alive_count(state, rows, cols, row + 1, col - 1));
        assert(glider_count(phase, r + 1, c) == alive_count(state, rows, cols, row + 1, col));
        assert(glider_count(phase, r + 1, c + 1) == alive_count(state, rows, cols, row + 1, col + 1));
        assert(live_neighbors(state, rows, cols, row, col) == glider_neighbors(phase, r, c));
        lemma_glider_rule(phase, r, c);
    }
    assert(next =~= target);
}

/// A glider with room around its box is the same glider after four
/// generations, one cell further down and to the right: on a grid that is
/// dead but for a glider whose box has its top left corner at
/// (`top`, `left`), four generations give the grid that is dead but for
/// the glider at (`top + 1`, `left + 1`).
pub proof fn lemma_glider_moves_diagonally(
    state: Seq<u32>,
    rows: int,
    cols: int,
    top: int,
    left: int,
)
    requires
        0 <= top,
        0 <= left,
        top + 4 <= rows,
        left + 4 <= cols,
        shows_glider(state, rows, cols, 0, top, left),
    ensures
        state_after(state, rows, cols, 4) == glider(rows, cols, 0, top + 1, left + 1),
        shows_glider(state_after(state, rows, cols, 4), rows, cols, 0, top + 1, left + 1),
{
    let first = next_state(state, rows, cols);
    lemma_glider_generation(state, rows, cols, 0, top, left);
    lemma_glider_shows(rows, cols, 1, top, left);
    let second = next_state(first, rows, cols);
    lemma_glider_generation(first, rows, cols, 1, top, left);
    lemma_glider_shows(rows, cols, 2, top, left);
    let third = next_state(second, rows, cols);
    lemma_glider_generation(second, rows, cols, 2, top, left);
    lemma_glider_shows(rows, cols, 3, top, left);
    let fourth = next_state(third, rows, cols);
    lemma_glider_generation(third, rows, cols, 3, top, left);
    lemma_glider_shows(rows, cols, 0, top + 1, left + 1);
    assert(state_after(state, rows, cols, 0) == state);
    assert(state_after(state, rows, cols, 1) == first);
    assert(state_after(state, rows, cols, 2) == second);
    assert(state_after(state, rows, cols, 3) == third);
    assert(state_after(state, rows, cols, 4) == fourth);
}

/// Workgroups to dispatch along an axis of `cells` cells.
pub fn dispatch_count(cells: u32) -> (groups: u32)
    ensures
        groups == spec_dispatch_count(cells as int),
        groups * 16 >= cells,
        cells > 0 ==> (groups - 1) * 16 < cells,
{
    let whole: u32 = cells / WORKGROUP_SIZE;
    if cells % WORKGROUP_SIZE == 0 {
        whole
    } else {
        whole + 1
    }
}

/// The compute stage: one dispatch of it writes the next generation.
pub struct ComputePass;

impl ComputePass {
    /// One if the cell at (`row`, `col`) is inside the grid and alive, zero
    /// otherwise.
    fn alive_at(current: &Vec<u32>, rows: u32, cols: u32, row: i64, col: i64) -> (count: u32)
        requires
            current.len() == rows * cols,
        ensures
            count == alive_count(current@, rows as int, cols as int, row as int, col as int),
    {
        if row < 0 || col < 0 || row >= rows as i64 || col >= cols as i64 {
            0
        } else {
            proof {
                lemma_cell_index(rows as int, cols as int, row as int, col as int);
            }
            let index: usize = row as usize * cols as usize + col as usize;
            if current[index] != 0 {
                1
            } else {
                0
            }
        }
    }

    /// What one invocation of the compute stage computes: the next value of
    /// the cell at (`row`, `col`), from the current generation alone.
    pub fn invoke(uniform: &ComputeUniform, current: &Vec<u32>, row: u32, col: u32) -> (cell: u32)
        requires
            current.len() == uniform.spec_rows() * uniform.spec_cols(),
            row < uniform.spec_rows(),
            col < uniform.spec_cols(),
        ensures
            cell == next_cell(
                current@,
                uniform.spec_rows() as int,
                uniform.spec_cols() as int,
                row as int,
                col as int,
            ),
    {
        let rows: u32 = uniform.rows();
        let cols: u32 = uniform.cols();
        let r: i64 = row as i64;
        let c: i64 = col as i64;
        let neighbors: u32 = Self::alive_at(current, rows, cols, r - 1, c - 1) + Self::alive_at(
            current,
            rows,
            cols,
            r - 1,
            c,
        ) + Self::alive_at(current, rows, cols, r - 1, c + 1) + Self::alive_at(
            current,
            rows,
            cols,
            r,
            c - 1,
        ) + Self::alive_at(current, rows, cols, r, c + 1) + Self::alive_at(
            current,
            rows,
            cols,
            r + 1,
            c - 1,
        ) + Self::alive_at(current, rows, cols, r + 1, c) + Self::alive_at(
            current,
            rows,
            cols,
            r + 1,
            c + 1,
        );
        let alive: bool = Self::alive_at(current, rows, cols, r, c) != 0;
        if alive && (neighbors == 2 || neighbors == 3) {
            1
        } else if !alive && neighbors == 3 {
            1
        } else {
            0
        }
    }

    /// Runs one dispatch of the compute stage on the CPU, with
    /// `dispatch[0]` workgroups along x and `dispatch[1]` along y, each of
    /// 16 by 16 invocations. Every invocation that falls inside the grid
    /// writes the next value of its own cell to `next`; `current` is only
    /// read, so all invocations see the same generation. A dispatch of
    /// `[ceil(cols / 16), ceil(rows / 16)]` workgroups or more writes the
    /// whole next generation.
    pub fn run(
        uniform: &ComputeUniform,
        current: &Vec<u32>,
        next: &mut Vec<u32>,
        dispatch: [u32; 2],
    )
        requires
            current.len() == uniform.spec_rows() * uniform.spec_cols(),
            old(next).len() == current.len(),
        ensures
            final(next)@ == dispatch_result(
                current@,
                old(next)@,
                uniform.spec_rows() as int,
                uniform.spec_cols() as int,
                dispatch[0] as int,
                dispatch[1] as int,
            ),
            dispatch[0] >= spec_dispatch_count(uniform.spec_cols() as int) && dispatch[1]
                >= spec_dispatch_count(uniform.spec_rows() as int) ==> final(next)@ == next_state(
                current@,
                uniform.spec_rows() as int,
                uniform.spec_cols() as int,
            ),
    {
        let rows: u32 = uniform.rows();
        let cols: u32 = uniform.cols();
        let span_x: u64 = dispatch[0] as u64 * WORKGROUP_SIZE as u64;
        let span_y: u64 = dispatch[1] as u64 * WORKGROUP_SIZE as u64;
        let ghost target = dispatch_result(
            current@,
            old(next)@,
            rows as int,
            cols as int,
            dispatch[0] as int,
            dispatch[1] as int,
        );
        let ghost before = old(next)@;
        let mut y: u64 = 0;
        while y < span_y && y < rows as u64
            invariant
                rows == uniform.spec_rows(),
                cols == uniform.spec_cols(),
                current.len() == rows * cols,
                next.len() == current.len(),
                before.len() == next.len(),
                span_x == dispatch[0] * 16,
                span_y == dispatch[1] * 16,
                target == dispatch_result(
                    current@,
                    before,
                    rows as int,
                    cols as int,
                    dispatch[0] as int,
                    dispatch[1] as int,
                ),
                y <= span_y,
                y <= rows,
                forall|i: int|
                    0 <= i < rows * cols && i < y * cols ==> #[trigger] next@[i] == target[i],
                forall|i: int|
                    0 <= i < rows * cols && i >= y * cols ==> #[trigger] next@[i] == before[i],
            decreases rows - y,
        {
            let mut x: u64 = 0;
            while x < span_x && x < cols as u64
                invariant
                    rows == uniform.spec_rows(),
                    cols == uniform.spec_cols(),
                    current.len() == rows * cols,
                    next.len() == current.len(),
                    before.len() == next.len(),
                    span_x == dispatch[0] * 16,
                    span_y == dispatch[1] * 16,
                    target == dispatch_result(
                        current@,
                        before,
                        rows as int,
                        cols as int,
                        dispatch[0] as int,
                        dispatch[1] as int,
                    ),
                    y < span_y,
                    y < rows,
                    x <= span_x,
                    x <= cols,
                    forall|i: int|
                        0 <= i < rows * cols && i < y * cols + x ==> #[trigger] next@[i]
                            == target[i],
                    forall|i: int|
                        0 <= i < rows * cols && i >= y * cols + x ==> #[trigger] next@[i]
                            == before[i],
                decreases cols - x,
            {
                proof {
                    lemma_cell_index(rows as int, cols as int, y as int, x as int);
                }
                let cell: u32 = Self::invoke(uniform, current, y as u32, x as u32);
                let index: usize = y as usize * cols as usize + x as usize;
                next.set(index, cell);
                assert(next@[index as int] == target[index as int]);
                x = x + 1;
            }
            proof {
                assert(y * cols + cols == (y + 1) * cols) by (nonlinear_arith);
                assert forall|i: int| 0 <= i < rows * cols && i < (y + 1) * cols implies #[trigger] next@[i]
                    == target[i] by {
                    if i >= y * cols + x {
                        lemma_cell_index(rows as int, cols as int, y as int, i - y * cols);
                    }
                }
            }
            y = y + 1;
        }
        proof {
            assert forall|i: int| 0 <= i < rows * cols implies #[trigger] next@[i] == target[i] by {
                if i >= y * cols {
                    assert(0 < cols) by (nonlinear_arith)
                        requires
                            0 <= i < rows * cols,
                            0 <= cols,
                    ;
                    lemma_index_cell(rows as int, cols as int, i);
                    let r = i / (cols as int);
                    assert(r >= y) by (nonlinear_arith)
                        requires
                            r * cols + i % (cols as int) == i,
                            i % (cols as int) < cols,
                            i >= y * cols,
                            0 < cols,
                    ;
                }
            }
            assert(next@ =~= target);
            if dispatch[0] >= spec_dispatch_count(cols as int) && dispatch[1]
                >= spec_dispatch_count(rows as int) {
                lemma_covering_dispatch(
                    current@,
                    before,
                    rows as int,
                    cols as int,
                    dispatch[0] as int,
                    dispatch[1] as int,
                );
            }
        }
    }
}

} // verus!
