//! Laws of the automaton, stated over the model and proved.
use vstd::prelude::*;
use crate::geometry::Direction;
use crate::loop_value::wrapped;
use crate::model::{grid_after, grid_ok, next_condition, run, AntView, SceneView};
use vstd::arithmetic::div_mod::{
    lemma_add_mod_noop_right, lemma_mod_add_multiples_vanish, lemma_mod_bound, lemma_mod_self_0,
    lemma_small_mod,
};

verus! {

/// On a ring of `modulus` values, one step up from the top lands on zero and one
/// step down from zero lands on the top.
pub proof fn lemma_toroidal_wrap(modulus: int)
    requires
        0 < modulus,
    ensures
        wrapped(modulus - 1, 1, modulus) == 0,
        wrapped(0, -1, modulus) == modulus - 1,
{
    lemma_mod_self_0(modulus);
    lemma_small_mod((modulus - 1) as nat, modulus as nat);
    lemma_mod_add_multiples_vanish(-1, modulus);
}

/// A quarter turn clockwise and a quarter turn counter-clockwise undo each
/// other, in either order.
pub proof fn lemma_rotation_inverse(d: Direction)
    ensures
        d.clockwise().counterclockwise() == d,
        d.counterclockwise().clockwise() == d,
{
}

/// The grid after an ant standing at `a` has visited its cell `k` times.
pub open spec fn visit_times(grid: Seq<Seq<usize>>, n: int, a: AntView, k: nat) -> Seq<Seq<usize>>
    decreases k,
{
    if k == 0 {
        grid
    } else {
        grid_after(visit_times(grid, n, a, (k - 1) as nat), n, a)
    }
}

/// After `k` visits the cell holds its condition moved on by `k` places, modulo
/// `n`, and no other cell has changed.
proof fn lemma_visit_times(grid: Seq<Seq<usize>>, n: int, a: AntView, k: nat)
    requires
        grid_ok(grid, n),
        n <= usize::MAX,
        0 <= a.row < grid.len(),
        0 <= a.col < grid[0].len(),
    ensures
        visit_times(grid, n, a, k) == grid.update(
            a.row,
            grid[a.row].update(a.col, ((grid[a.row][a.col] + k) % n) as usize),
        ),
    decreases k,
{
    let c = grid[a.row][a.col] as int;
    assert(grid[a.row].len() == grid[0].len());
    if k == 0 {
        lemma_small_mod(c as nat, n as nat);
        assert(grid[a.row].update(a.col, (c % n) as usize) =~= grid[a.row]);
        assert(grid.update(a.row, grid[a.row]) =~= grid);
    } else {
        lemma_visit_times(grid, n, a, (k - 1) as nat);
        let prev = visit_times(grid, n, a, (k - 1) as nat);
        lemma_mod_bound(c + k - 1, n);
        lemma_mod_bound(c + k, n);
        lemma_add_mod_noop_right(1, c + k - 1, n);
        assert(prev[a.row][a.col] == ((c + k - 1) % n) as usize);
        assert(next_condition(prev[a.row][a.col] as int, n) == (c + k) % n);
        let v = ((c + k) % n) as usize;
        assert(visit_times(grid, n, a, k) == prev.update(a.row, prev[a.row].update(a.col, v)));
        assert(prev[a.row].update(a.col, v) =~= grid[a.row].update(a.col, v));
        assert(prev.update(a.row, grid[a.row].update(a.col, v)) =~= grid.update(
            a.row,
            grid[a.row].update(a.col, ((c + k) % n) as usize),
        ));
    }
}

/// Advancing a cell round-robin through a table of `n` conditions brings it back
/// to its condition after exactly `n` visits, and no fewer, leaving every other
/// cell alone.
pub proof fn lemma_round_robin(grid: Seq<Seq<usize>>, n: int, a: AntView)
    requires
        grid_ok(grid, n),
        n <= usize::MAX,
        0 <= a.row < grid.len(),
        0 <= a.col < grid[0].len(),
    ensures
        visit_times(grid, n, a, n as nat) == grid,
        forall|k: nat|
            0 < k < n ==> #[trigger] visit_times(grid, n, a, k)[a.row][a.col] != grid[a.row][a.col],
{
    let c = grid[a.row][a.col] as int;
    assert(grid[a.row].len() == grid[0].len());
    assert(0 <= c < n);
    lemma_visit_times(grid, n, a, n as nat);
    lemma_mod_add_multiples_vanish(c, n);
    lemma_small_mod(c as nat, n as nat);
    assert(grid[a.row].update(a.col, ((c + n) % n) as usize) =~= grid[a.row]);
    assert(grid.update(a.row, grid[a.row]) =~= grid);
    assert forall|k: nat| 0 < k < n implies #[trigger] visit_times(grid, n, a, k)[a.row][a.col]
        != grid[a.row][a.col] by {
        lemma_visit_times(grid, n, a, k);
        if c + k < n {
            lemma_small_mod((c + k) as nat, n as nat);
        } else {
            lemma_small_mod((c + k - n) as nat, n as nat);
            lemma_mod_add_multiples_vanish(c + k - n, n);
        }
    }
}

/// Two scenes in the same state are in the same state after any number of
/// ticks: a tick depends on nothing but the state it starts from.
pub proof fn lemma_step_determinism(a: SceneView, b: SceneView, k: nat)
    requires
        a == b,
    ensures
        run(a, k) == run(b, k),
{
}

} // verus!
