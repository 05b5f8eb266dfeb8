//! Behaviour tables: for each cell condition, the way an ant turns and the
//! colour the condition is drawn in.
use vstd::prelude::*;
use crate::error::LibError;

verus! {

/// The way an ant turns on a cell.
#[derive(Clone, Copy, Debug, PartialEq, Eq, Structural)]
pub enum Pattern {
    Right,
    Left,
}

/// A colour that a condition is drawn in; it plays no part in the simulation.
#[derive(Clone, Copy, Debug, PartialEq, Eq, Structural)]
pub struct Color {
    pub r: u8,
    pub g: u8,
    pub b: u8,
}

pub open spec fn rgb(r: u8, g: u8, b: u8) -> Color {
    Color { r, g, b }
}

impl Color {
    fn new(r: u8, g: u8, b: u8) -> (c: Color)
        ensures
            c == rgb(r, g, b),
    {
        Color { r, g, b }
    }
}

/// The rule and colour of one condition.
#[derive(Clone, Debug)]
pub struct State {
    pattern: Pattern,
    color: Color,
}

impl State {
    pub closed spec fn rule(self) -> Pattern {
        self.pattern
    }

    pub closed spec fn paint(self) -> Color {
        self.color
    }

    fn new(pattern: Pattern, color: Color) -> (s: State)
        ensures
            s.rule() == pattern,
            s.paint() == color,
    {
        State { pattern, color }
    }

    /// The way an ant turns on a cell in this condition.
    pub fn pattern(&self) -> (r: Pattern)
        ensures
            r == self.rule(),
    {
        self.pattern
    }

    /// The colour this condition is drawn in.
    pub fn color(&self) -> (r: &Color)
        ensures
            *r == self.paint(),
    {
        &self.color
    }
}

/// The rules and colours of a sequence of conditions, in order.
pub open spec fn table_of(states: Seq<State>) -> Seq<(Pattern, Color)> {
    states.map_values(|s: State| (s.rule(), s.paint()))
}

/// The rule table of one automaton, indexed by condition; condition 0 is the
/// one every cell starts in.
#[derive(Clone, Debug)]
pub struct Behavior {
    indexed_conditions: Vec<State>,
}

impl Behavior {
    /// The (rule, colour) pair of each condition.
    pub closed spec fn table(self) -> Seq<(Pattern, Color)> {
        table_of(self.indexed_conditions@)
    }

    /// The number of conditions.
    pub fn len(&self) -> (r: usize)
        ensures
            r == self.table().len(),
    {
        self.indexed_conditions.len()
    }

    /// The rule and colour of `condition`.
    pub fn lookup(&self, condition: usize) -> (r: &State)
        requires
            condition < self.table().len(),
        ensures
            (r.rule(), r.paint()) == self.table()[condition as int],
    {
        &self.indexed_conditions[condition]
    }

    /// Every condition in order.
    pub fn indexed_conditions(&self) -> (r: &Vec<State>)
        ensures
            table_of(r@) == self.table(),
    {
        &self.indexed_conditions
    }
}

/// The identifiers of the preset behaviours.
pub open spec fn is_behavior_id(id: u8) -> bool {
    id <= 3
}

/// The table of the preset behaviour `id`.
pub open spec fn preset_table(id: u8) -> Seq<(Pattern, Color)>
    recommends
        is_behavior_id(id),
{
    if id == 0 {
        seq![
            (Pattern::Right, rgb(0, 0, 0)),
            (Pattern::Left, rgb(255, 255, 255)),
        ]
    } else if id == 1 {
        seq![
            (Pattern::Left, rgb(0, 0, 0)),
            (Pattern::Right, rgb(255, 0, 0)),
            (Pattern::Right, rgb(0, 255, 0)),
            (Pattern::Right, rgb(0, 0, 255)),
            (Pattern::Right, rgb(255, 255, 0)),
            (Pattern::Right, rgb(255, 0, 255)),
            (Pattern::Left, rgb(0, 255, 255)),
            (Pattern::Left, rgb(255, 255, 255)),
            (Pattern::Right, rgb(128, 128, 128)),
        ]
    } else if id == 2 {
        seq![
            (Pattern::Left, rgb(0, 0, 0)),
            (Pattern::Left, rgb(255, 0, 0)),
            (Pattern::Right, rgb(0, 255, 0)),
            (Pattern::Right, rgb(0, 0, 255)),
            (Pattern::Right, rgb(255, 255, 0)),
            (Pattern::Left, rgb(255, 0, 255)),
            (Pattern::Right, rgb(0, 255, 255)),
            (Pattern::Left, rgb(255, 255, 255)),
            (Pattern::Right, rgb(128, 128, 128)),
            (Pattern::Left, rgb(128, 0, 0)),
            (Pattern::Left, rgb(0, 128, 0)),
            (Pattern::Right, rgb(0, 0, 128)),
        ]
    } else {
        seq![
            (Pattern::Right, rgb(0, 0, 0)),
            (Pattern::Right, rgb(255, 0, 0)),
            (Pattern::Left, rgb(0, 255, 0)),
            (Pattern::Left, rgb(0, 0, 255)),
            (Pattern::Left, rgb(255, 255, 0)),
            (Pattern::Right, rgb(255, 0, 255)),
            (Pattern::Left, rgb(0, 255, 255)),
            (Pattern::Left, rgb(255, 255, 255)),
            (Pattern::Left, rgb(128, 128, 128)),
            (Pattern::Right, rgb(128, 0, 0)),
            (Pattern::Right, rgb(0, 128, 0)),
            (Pattern::Right, rgb(0, 0, 128)),
        ]
    }
}

/// The preset behaviour `number`, or `UnknownBehavior` for an identifier
/// outside the catalogue.
pub fn find_behavior(number: u8) -> (r: Result<Behavior, LibError>)
    ensures
        is_behavior_id(number) ==> (r matches Ok(b) && b.table() == preset_table(number)),
        !is_behavior_id(number) ==> r == Err::<Behavior, LibError>(LibError::UnknownBehavior(number)),
{
    let indexed_conditions = match number {
        0 => vec![
                State::new(Pattern::Right, Color::new(0, 0, 0)),
                State::new(Pattern::Left, Color::new(255, 255, 255)),
            ],
        1 => vec![
                State::new(Pattern::Left, Color::new(0, 0, 0)),
                State::new(Pattern::Right, Color::new(255, 0, 0)),
                State::new(Pattern::Right, Color::new(0, 255, 0)),
                State::new(Pattern::Right, Color::new(0, 0, 255)),
                State::new(Pattern::Right, Color::new(255, 255, 0)),
                State::new(Pattern::Right, Color::new(255, 0, 255)),
                State::new(Pattern::Left, Color::new(0, 255, 255)),
                State::new(Pattern::Left, Color::new(255, 255, 255)),
                State::new(Pattern::Right, Color::new(128, 128, 128)),
            ],
        2 => vec![
                State::new(Pattern::Left, Color::new(0, 0, 0)),
                State::new(Pattern::Left, Color::new(255, 0, 0)),
                State::new(Pattern::Right, Color::new(0, 255, 0)),
                State::new(Pattern::Right, Color::new(0, 0, 255)),
                State::new(Pattern::Right, Color::new(255, 255, 0)),
                State::new(Pattern::Left, Color::new(255, 0, 255)),
                State::new(Pattern::Right, Color::new(0, 255, 255)),
                State::new(Pattern::Left, Color::new(255, 255, 255)),
                State::new(Pattern::Right, Color::new(128, 128, 128)),
                State::new(Pattern::Left, Color::new(128, 0, 0)),
                State::new(Pattern::Left, Color::new(0, 128, 0)),
                State::new(Pattern::Right, Color::new(0, 0, 128)),
            ],
        3 => vec![
                State::new(Pattern::Right, Color::new(0, 0, 0)),
                State::new(Pattern::Right, Color::new(255, 0, 0)),
                State::new(Pattern::Left, Color::new(0, 255, 0)),
                State::new(Pattern::Left, Color::new(0, 0, 255)),
                State::new(Pattern::Left, Color::new(255, 255, 0)),
                State::new(Pattern::Right, Color::new(255, 0, 255)),
                State::new(Pattern::Left, Color::new(0, 255, 255)),
                State::new(Pattern::Left, Color::new(255, 255, 255)),
                State::new(Pattern::Left, Color::new(128, 128, 128)),
                State::new(Pattern::Right, Color::new(128, 0, 0)),
                State::new(Pattern::Right, Color::new(0, 128, 0)),
                State::new(Pattern::Right, Color::new(0, 0, 128)),
            ],
        _ => {
            return Err(LibError::UnknownBehavior(number));
        },
    };
    let b = Behavior { indexed_conditions };
    assert(b.table() =~= preset_table(number));
    Ok(b)
}

} // verus!
