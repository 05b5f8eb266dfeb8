//! Ants, the grid they walk on, and the scene that moves them tick by tick.
use vstd::prelude::*;
use crate::behavior::{find_behavior, is_behavior_id, preset_table, table_of, Behavior, Pattern, State};
use crate::error::LibError;
use crate::geometry::{Direction, Position};
use crate::model::{
    ant_after, grid_after, grid_ok, lemma_move_ant_valid, lemma_move_first_valid, move_ant, move_first, tick, valid,
    AntView, SceneView,
};

verus! {

/// The condition of each cell, row by row.
pub type Field = Vec<Vec<usize>>;

/// The conditions of a field, row by row.
pub open spec fn grid_of(field: Field) -> Seq<Seq<usize>> {
    field@.map_values(|row: Vec<usize>| row@)
}

/// An ant: a cell of the grid and a heading.
#[derive(Clone, Debug)]
pub struct Ant {
    position: Position,
    direction: Direction,
}

impl View for Ant {
    type V = AntView;

    closed spec fn view(&self) -> AntView {
        AntView { row: self.position.row(), col: self.position.col(), heading: self.direction }
    }
}

impl Ant {
    /// The ant's position wraps at exactly `height` rows and `width` columns,
    /// and lies inside them.
    pub closed spec fn placed_in(self, height: int, width: int) -> bool {
        &&& self.position.wf()
        &&& self.position.height() == height
        &&& self.position.width() == width
    }

    /// An ant at `row` and `col` facing `direction`, on a `height` by `width` grid.
    fn new(row: i32, col: i32, height: i32, width: i32, direction: Direction) -> (r: Ant)
        requires
            0 <= row < height,
            0 <= col < width,
        ensures
            r@ == (AntView { row: row as int, col: col as int, heading: direction }),
            r.placed_in(height as int, width as int),
    {
        Ant { position: Position::new(row, col, height, width), direction }
    }

    /// One step: read the condition under the ant, turn as its rule says,
    /// advance the cell to the next condition, and move forward one cell.
    fn work(&mut self, field: &mut Field, behavior: &Behavior)
        requires
            behavior.table().len() > 0,
            grid_ok(grid_of(*old(field)), behavior.table().len() as int),
            old(self).placed_in(old(field)@.len() as int, old(field)@[0]@.len() as int),
        ensures
            grid_of(*final(field)) == grid_after(
                grid_of(*old(field)),
                behavior.table().len() as int,
                old(self)@,
            ),
            final(self)@ == ant_after(
                grid_of(*old(field)),
                behavior.table(),
                old(self)@,
                old(field)@.len() as int,
                old(field)@[0]@.len() as int,
            ),
            final(self).placed_in(old(field)@.len() as int, old(field)@[0]@.len() as int),
    {
        let ghost g = grid_of(*field);
        let y = self.position.y_usize();
        let x = self.position.x_usize();
        assert(g[y as int].len() == g[0].len());
        let cell: usize = field[y][x];
        let state = behavior.lookup(cell);
        match state.pattern() {
            Pattern::Right => {
                self.direction = self.direction.rotate_cw();
            },
            Pattern::Left => {
                self.direction = self.direction.rotate_ccw();
            },
        }
        let n = behavior.len();
        field[y][x] = (cell + 1) % n;
        assert(grid_of(*field) =~= grid_after(g, n as int, old(self)@));
        self.position.translate(self.direction.vector());
    }

    /// The ant's column and row.
    pub fn position(&self) -> (r: (i32, i32))
        ensures
            r.0 == self@.col,
            r.1 == self@.row,
    {
        (self.position.x_value(), self.position.y_value())
    }
}

/// The numbers of ants that a scene can start with.
pub open spec fn is_agent_count(number: u8) -> bool {
    1 <= number <= 3
}

/// Where `number` ants start on a `width` by `height` grid: evenly spaced along
/// the middle row, all facing down.
pub open spec fn placements(number: u8, width: int, height: int) -> Seq<AntView>
    recommends
        is_agent_count(number),
{
    let row = height / 2;
    let down = Direction::Down;
    if number == 1 {
        seq![AntView { row, col: width / 2, heading: down }]
    } else if number == 2 {
        seq![
            AntView { row, col: width / 3, heading: down },
            AntView { row, col: width / 3 * 2, heading: down },
        ]
    } else {
        seq![
            AntView { row, col: width / 4, heading: down },
            AntView { row, col: width / 2, heading: down },
            AntView { row, col: width / 4 * 3, heading: down },
        ]
    }
}

/// The views of a sequence of ants.
pub open spec fn ants_view(ants: Seq<Ant>) -> Seq<AntView> {
    ants.map_values(|a: Ant| a@)
}

/// The ants that a scene of `number` ants starts with on a grid of `x` columns
/// and `y` rows, or `UnknownAgentCount` for an unsupported number.
pub fn find_ants(number: u8, x: u32, y: u32) -> (r: Result<Vec<Ant>, LibError>)
    requires
        0 < x <= i32::MAX,
        0 < y <= i32::MAX,
    ensures
        is_agent_count(number) ==> (r matches Ok(ants) && ants_view(ants@) == placements(
            number,
            x as int,
            y as int,
        ) && forall|k: int| 0 <= k < ants@.len() ==> #[trigger] ants@[k].placed_in(y as int, x as int)),
        !is_agent_count(number) ==> r == Err::<Vec<Ant>, LibError>(LibError::UnknownAgentCount(number)),
{
    let width = x as i32;
    let height = y as i32;
    let row = (y / 2) as i32;
    let ants = match number {
        1 => vec![Ant::new(row, (x / 2) as i32, height, width, Direction::Down)],
        2 => vec![
            Ant::new(row, (x / 3) as i32, height, width, Direction::Down),
            Ant::new(row, (x / 3 * 2) as i32, height, width, Direction::Down),
        ],
        3 => vec![
            Ant::new(row, (x / 4) as i32, height, width, Direction::Down),
            Ant::new(row, (x / 2) as i32, height, width, Direction::Down),
            Ant::new(row, (x / 4 * 3) as i32, height, width, Direction::Down),
        ],
        _ => {
            return Err(LibError::UnknownAgentCount(number));
        },
    };
    assert(ants_view(ants@) =~= placements(number, x as int, y as int));
    Ok(ants)
}

/// A grid of `height` rows and `width` columns with every cell in condition 0.
pub open spec fn blank_grid(width: nat, height: nat) -> Seq<Seq<usize>> {
    Seq::new(height, |r: int| Seq::new(width, |c: int| 0usize))
}

/// The state a scene starts in.
pub open spec fn initial_view(width: u32, height: u32, behavior: u8, ants: u8) -> SceneView {
    SceneView {
        grid: blank_grid(width as nat, height as nat),
        table: preset_table(behavior),
        ants: placements(ants, width as int, height as int),
        steps: 0,
    }
}

/// A behaviour, the grid, and the ants that walk it.
pub struct Scene {
    behavior: Behavior,
    ants: Vec<Ant>,
    field: Field,
    loop_count: u32,
}

impl View for Scene {
    type V = SceneView;

    closed spec fn view(&self) -> SceneView {
        SceneView {
            grid: grid_of(self.field),
            table: self.behavior.table(),
            ants: ants_view(self.ants@),
            steps: self.loop_count as nat,
        }
    }
}

impl Scene {
    /// The state is valid and every ant wraps at the grid's own size.
    pub closed spec fn wf(self) -> bool {
        &&& valid(self@)
        &&& forall|k: int|
            0 <= k < self.ants@.len() ==> #[trigger] self.ants@[k].placed_in(
                self@.height(),
                self@.width(),
            )
    }

    /// A scene on a grid of `x` columns and `y` rows, with the preset behaviour
    /// `behavior_number` and `ants_count` ants, before its first tick.
    pub fn init(x: u32, y: u32, behavior_number: u8, ants_count: u8) -> (r: Result<Scene, LibError>)
        requires
            0 < x <= i32::MAX,
            0 < y <= i32::MAX,
        ensures
            !is_behavior_id(behavior_number) ==> r == Err::<Scene, LibError>(
                LibError::UnknownBehavior(behavior_number),
            ),
            is_behavior_id(behavior_number) && !is_agent_count(ants_count) ==> r == Err::<
                Scene,
                LibError,
            >(LibError::UnknownAgentCount(ants_count)),
            is_behavior_id(behavior_number) && is_agent_count(ants_count) ==> (r matches Ok(s)
                && s.wf() && valid(s@) && s@ == initial_view(x, y, behavior_number, ants_count)),
    {
        let behavior = match find_behavior(behavior_number) {
            Ok(b) => b,
            Err(e) => {
                return Err(e);
            },
        };
        let ants = match find_ants(ants_count, x, y) {
            Ok(a) => a,
            Err(e) => {
                return Err(e);
            },
        };
        let mut field: Field = Vec::new();
        let mut r: u32 = 0;
        while r < y
            invariant
                r <= y,
                grid_of(field) =~= blank_grid(x as nat, r as nat),
            decreases y - r,
        {
            let mut row: Vec<usize> = Vec::new();
            let mut c: u32 = 0;
            while c < x
                invariant
                    r < y,
                    c <= x,
                    grid_of(field) =~= blank_grid(x as nat, r as nat),
                    row@ =~= Seq::new(c as nat, |i: int| 0usize),
                decreases x - c,
            {
                row.push(0);
                c = c + 1;
            }
            let ghost rows = grid_of(field);
            field.push(row);
            assert(grid_of(field) =~= rows.push(row@));
            r = r + 1;
        }
        let scene = Scene { behavior, ants, field, loop_count: 0 };
        assert(scene@ == initial_view(x, y, behavior_number, ants_count));
        Ok(scene)
    }

    /// One tick: every ant takes one step, in order, then the counter goes up.
    pub fn work(&mut self)
        requires
            old(self).wf(),
            old(self)@.steps < u32::MAX,
        ensures
            final(self).wf(),
            valid(final(self)@),
            final(self)@ == tick(old(self)@),
    {
        let ghost v0 = self@;
        let n = self.ants.len();
        let mut i: usize = 0;
        while i < n
            invariant
                n == self.ants@.len(),
                i <= n,
                valid(v0),
                v0.ants.len() == n,
                v0.steps < u32::MAX,
                self@ == move_first(v0, i as nat),
                self.wf(),
            decreases n - i,
        {
            proof {
                lemma_move_first_valid(v0, i as nat);
                lemma_move_ant_valid(self@, i as int);
            }
            let ghost before = self@;
            let ghost ants_before = self.ants@;
            self.ants[i].work(&mut self.field, &self.behavior);
            proof {
                assert(ants_view(self.ants@) =~= before.ants.update(i as int, self.ants@[i as int]@));
                assert(self@ == move_ant(before, i as int));
                assert forall|k: int| 0 <= k < self.ants@.len() implies #[trigger] self.ants@[k].placed_in(
                    self@.height(),
                    self@.width(),
                ) by {
                    if k != i {
                        assert(self.ants@[k] == ants_before[k]);
                    }
                }
            }
            i = i + 1;
        }
        proof {
            lemma_move_first_valid(v0, n as nat);
        }
        self.loop_count = self.loop_count + 1;
    }

    /// The condition of each cell, row by row.
    pub fn field(&self) -> (r: &Field)
        ensures
            grid_of(*r) == self@.grid,
    {
        &self.field
    }

    /// The rule and colour of each condition of the behaviour.
    pub fn indexed_conditions(&self) -> (r: &Vec<State>)
        ensures
            table_of(r@) == self@.table,
    {
        self.behavior.indexed_conditions()
    }

    /// The ants, in the order they move in.
    pub fn ants(&self) -> (r: &Vec<Ant>)
        ensures
            ants_view(r@) == self@.ants,
    {
        &self.ants
    }

    /// The number of ticks taken so far.
    pub fn loop_count(&self) -> (r: u32)
        ensures
            r == self@.steps,
    {
        self.loop_count
    }
}

} // verus!
