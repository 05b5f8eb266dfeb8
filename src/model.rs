//! The mathematical model of a simulation: the grid as nested sequences, the
//! ants as plain records, and one tick as a function on that state.
use vstd::prelude::*;
use crate::behavior::{Color, Pattern};
use crate::geometry::Direction;
use crate::loop_value::wrapped;
use vstd::arithmetic::div_mod::lemma_mod_bound;

verus! {

/// Where an ant stands and which way it faces.
pub struct AntView {
    pub row: int,
    pub col: int,
    pub heading: Direction,
}

/// The whole observable state of a scene.
pub struct SceneView {
    /// The condition of each cell, row by row.
    pub grid: Seq<Seq<usize>>,
    /// The rule and colour of each condition.
    pub table: Seq<(Pattern, Color)>,
    /// The ants, in the order they move in.
    pub ants: Seq<AntView>,
    /// The number of ticks taken so far.
    pub steps: nat,
}

impl SceneView {
    pub open spec fn height(self) -> int {
        self.grid.len() as int
    }

    pub open spec fn width(self) -> int {
        if self.grid.len() > 0 {
            self.grid[0].len() as int
        } else {
            0
        }
    }
}

/// The grid is a non-empty rectangle whose sides fit in an `i32`, and every cell
/// holds one of `n` conditions.
pub open spec fn grid_ok(grid: Seq<Seq<usize>>, n: int) -> bool {
    &&& 0 < grid.len() <= i32::MAX
    &&& 0 < grid[0].len() <= i32::MAX
    &&& forall|r: int| 0 <= r < grid.len() ==> #[trigger] grid[r].len() == grid[0].len()
    &&& forall|r: int, c: int|
        0 <= r < grid.len() && 0 <= c < grid[r].len() ==> #[trigger] grid[r][c] < n
}

/// The invariant of every reachable state: the table is not empty, every cell
/// holds a condition of the table, and every ant stands inside the grid.
pub open spec fn valid(v: SceneView) -> bool {
    &&& v.table.len() > 0
    &&& grid_ok(v.grid, v.table.len() as int)
    &&& forall|k: int|
        0 <= k < v.ants.len() ==> 0 <= #[trigger] v.ants[k].row < v.height() && 0 <= v.ants[k].col
            < v.width()
}

/// The condition that follows `c` in a table of `n` conditions.
pub open spec fn next_condition(c: int, n: int) -> int {
    (c + 1) % n
}

/// The heading after turning from `d` as `p` says.
pub open spec fn turn(p: Pattern, d: Direction) -> Direction {
    match p {
        Pattern::Right => d.clockwise(),
        Pattern::Left => d.counterclockwise(),
    }
}

/// The grid after an ant at `a` has advanced the condition of its cell.
pub open spec fn grid_after(grid: Seq<Seq<usize>>, n: int, a: AntView) -> Seq<Seq<usize>> {
    grid.update(
        a.row,
        grid[a.row].update(a.col, next_condition(grid[a.row][a.col] as int, n) as usize),
    )
}

/// The ant at `a` after it has turned by the rule of its cell and stepped
/// forward, wrapping at the edges of a `height` by `width` grid.
pub open spec fn ant_after(
    grid: Seq<Seq<usize>>,
    table: Seq<(Pattern, Color)>,
    a: AntView,
    height: int,
    width: int,
) -> AntView {
    let d = turn(table[grid[a.row][a.col] as int].0, a.heading);
    AntView {
        row: wrapped(a.row, d.row_step(), height),
        col: wrapped(a.col, d.col_step(), width),
        heading: d,
    }
}

/// The state after ant `k` alone has taken its step.
pub open spec fn move_ant(v: SceneView, k: int) -> SceneView {
    SceneView {
        grid: grid_after(v.grid, v.table.len() as int, v.ants[k]),
        ants: v.ants.update(k, ant_after(v.grid, v.table, v.ants[k], v.height(), v.width())),
        ..v
    }
}

/// The state after the first `k` ants, in order, have each taken their step.
pub open spec fn move_first(v: SceneView, k: nat) -> SceneView
    decreases k,
{
    if k == 0 {
        v
    } else {
        move_ant(move_first(v, (k - 1) as nat), k - 1)
    }
}

/// One tick: every ant steps once, in order, then the counter goes up by one.
pub open spec fn tick(v: SceneView) -> SceneView {
    let m = move_first(v, v.ants.len());
    SceneView { steps: m.steps + 1, ..m }
}

/// The state after `k` ticks.
pub open spec fn run(v: SceneView, k: nat) -> SceneView
    decreases k,
{
    if k == 0 {
        v
    } else {
        tick(run(v, (k - 1) as nat))
    }
}

/// One ant's step keeps the invariant, the table, the size of the grid and the
/// number of ants.
pub proof fn lemma_move_ant_valid(v: SceneView, k: int)
    requires
        valid(v),
        0 <= k < v.ants.len(),
    ensures
        valid(move_ant(v, k)),
        move_ant(v, k).table == v.table,
        move_ant(v, k).steps == v.steps,
        move_ant(v, k).ants.len() == v.ants.len(),
        move_ant(v, k).height() == v.height(),
        move_ant(v, k).width() == v.width(),
{
    let a = v.ants[k];
    let n = v.table.len() as int;
    let m = move_ant(v, k);
    let d = turn(v.table[v.grid[a.row][a.col] as int].0, a.heading);
    lemma_mod_bound(v.grid[a.row][a.col] as int + 1, n);
    lemma_mod_bound(a.row + d.row_step(), v.height());
    lemma_mod_bound(a.col + d.col_step(), v.width());
    assert(m.grid[0].len() == v.grid[0].len());
    assert forall|r: int| 0 <= r < m.grid.len() implies #[trigger] m.grid[r].len() == m.grid[0].len() by {
        assert(v.grid[r].len() == v.grid[0].len());
    }
    assert forall|r: int, c: int| 0 <= r < m.grid.len() && 0 <= c < m.grid[r].len() implies #[trigger] m.grid[r][c] < n by {
        assert(v.grid[r].len() == v.grid[0].len());
        if r != a.row || c != a.col {
            assert(m.grid[r][c] == v.grid[r][c]);
        }
    }
}

/// The first `k` steps of a tick keep the invariant, the table, the size of the
/// grid, the number of ants and the counter.
pub proof fn lemma_move_first_valid(v: SceneView, k: nat)
    requires
        valid(v),
        k <= v.ants.len(),
    ensures
        valid(move_first(v, k)),
        move_first(v, k).table == v.table,
        move_first(v, k).steps == v.steps,
        move_first(v, k).ants.len() == v.ants.len(),
        move_first(v, k).height() == v.height(),
        move_first(v, k).width() == v.width(),
    decreases k,
{
    if k > 0 {
        lemma_move_first_valid(v, (k - 1) as nat);
        lemma_move_ant_valid(move_first(v, (k - 1) as nat), k - 1);
    }
}

/// A tick keeps the invariant, the table, the size of the grid and the number of
/// ants, and counts one more step.
pub proof fn lemma_tick_valid(v: SceneView)
    requires
        valid(v),
    ensures
        valid(tick(v)),
        tick(v).table == v.table,
        tick(v).steps == v.steps + 1,
        tick(v).ants.len() == v.ants.len(),
        tick(v).height() == v.height(),
        tick(v).width() == v.width(),
{
    lemma_move_first_valid(v, v.ants.len());
}

/// Every state reached from a valid one by any number of ticks is valid, with
/// the same table and grid size, and counts those ticks.
pub proof fn lemma_run_valid(v: SceneView, k: nat)
    requires
        valid(v),
    ensures
        valid(run(v, k)),
        run(v, k).table == v.table,
        run(v, k).steps == v.steps + k,
        run(v, k).ants.len() == v.ants.len(),
        run(v, k).height() == v.height(),
        run(v, k).width() == v.width(),
    decreases k,
{
    if k > 0 {
        lemma_run_valid(v, (k - 1) as nat);
        lemma_tick_valid(run(v, (k - 1) as nat));
    }
}

} // verus!
