//! The grid world: positions, headings, and the occupancy map that keeps at
//! most one creature on each cell.
//!
//! The coordinate system has (0, 0) at the bottom left; North is +y and East
//! is +x.

use std::collections::HashMap;
use vstd::prelude::*;

verus! {

broadcast use vstd::std_specs::hash::group_hash_axioms;

/// One of the four compass headings.
#[derive(Clone, Copy, Debug, PartialEq, Eq, Structural)]
pub enum Direction {
    North,
    South,
    East,
    West,
}

/// The heading a quarter turn counter-clockwise from `d`.
pub open spec fn left_of(d: Direction) -> Direction {
    match d {
        Direction::North => Direction::West,
        Direction::East => Direction::North,
        Direction::South => Direction::East,
        Direction::West => Direction::South,
    }
}

/// The heading a quarter turn clockwise from `d`.
pub open spec fn right_of(d: Direction) -> Direction {
    match d {
        Direction::North => Direction::East,
        Direction::East => Direction::South,
        Direction::South => Direction::West,
        Direction::West => Direction::North,
    }
}

/// The heading that a number drawn at random selects.
pub open spec fn direction_of_index(r: u32) -> Direction {
    if r % 4 == 0 {
        Direction::North
    } else if r % 4 == 1 {
        Direction::South
    } else if r % 4 == 2 {
        Direction::East
    } else {
        Direction::West
    }
}

impl Direction {
    /// Turns a quarter to the left.
    pub fn rotate_left(&self) -> (r: Direction)
        ensures
            r == left_of(*self),
    {
        match self {
            Direction::North => Direction::West,
            Direction::East => Direction::North,
            Direction::South => Direction::East,
            Direction::West => Direction::South,
        }
    }

    /// Turns a quarter to the right: three quarters to the left.
    pub fn rotate_right(&self) -> (r: Direction)
        ensures
            r == right_of(*self),
            r == left_of(left_of(left_of(*self))),
    {
        self.rotate_left().rotate_left().rotate_left()
    }

    /// The heading selected by `r`: its remainder modulo four picks North,
    /// South, East or West.
    pub fn from_index(r: u32) -> (d: Direction)
        ensures
            d == direction_of_index(r),
    {
        match r % 4 {
            0 => Direction::North,
            1 => Direction::South,
            2 => Direction::East,
            _ => Direction::West,
        }
    }

    /// A heading drawn at random, each with the same chance.
    pub fn random() -> (d: Direction) {
        let r: u32 = rand::random();
        Direction::from_index(r)
    }
}

/// The extent of the world: cells `[0, width) x [0, height)`.
#[derive(Clone, Copy, Debug, PartialEq, Eq, Structural)]
pub struct Size {
    pub width: u16,
    pub height: u16,
}

impl Size {
    /// Whether `position` lies inside the world.
    pub open spec fn contains(&self, position: Position) -> bool {
        position.x < self.width && position.y < self.height
    }

    /// Whether `position` lies inside the world.
    pub fn inside(&self, position: &Position) -> (r: bool)
        ensures
            r == self.contains(*position),
    {
        position.x < self.width && position.y < self.height
    }
}

/// A cell of the grid.
#[derive(Clone, Copy, Debug, PartialEq, Eq, Hash, Structural)]
pub struct Position {
    pub x: u16,
    pub y: u16,
}

/// The cell `step` cells from `p` towards `d`, or none where that step
/// would leave the world: below zero, or at or past the width or height.
pub open spec fn step_towards(p: Position, d: Direction, step: u16, boundary: Size) -> Option<
    Position,
> {
    match d {
        Direction::North => if p.y + step >= boundary.height {
            None
        } else {
            Some(Position { x: p.x, y: (p.y + step) as u16 })
        },
        Direction::South => if p.y < step {
            None
        } else {
            Some(Position { x: p.x, y: (p.y - step) as u16 })
        },
        Direction::East => if p.x + step >= boundary.width {
            None
        } else {
            Some(Position { x: (p.x + step) as u16, y: p.y })
        },
        Direction::West => if p.x < step {
            None
        } else {
            Some(Position { x: (p.x - step) as u16, y: p.y })
        },
    }
}

impl Position {
    /// The cell `step` cells away towards `direction`, or `None` where the
    /// step would go below zero or reach the width or height of `boundary`.
    pub fn move_direction(&self, direction: &Direction, step: u16, boundary: &Size) -> (r: Option<
        Position,
    >)
        ensures
            r == step_towards(*self, *direction, step, *boundary),
    {
        match direction {
            Direction::North => {
                if self.y as u32 + step as u32 >= boundary.height as u32 {
                    return None;
                }
                Some(Position { x: self.x, y: self.y + step })
            },
            Direction::South => {
                if self.y < step {
                    return None;
                }
                Some(Position { x: self.x, y: self.y - step })
            },
            Direction::East => {
                if self.x as u32 + step as u32 >= boundary.width as u32 {
                    return None;
                }
                Some(Position { x: self.x + step, y: self.y })
            },
            Direction::West => {
                if self.x < step {
                    return None;
                }
                Some(Position { x: self.x - step, y: self.y })
            },
        }
    }
}

/// Why the world refused to act on a creature.
#[derive(Clone, Copy, Debug, PartialEq, Eq, Structural)]
pub enum WorldError {
    /// The creature's stored position holds no creature in the world: the
    /// caller's bookkeeping and the world have diverged.
    PositionDesync,
}

/// The key under which the occupancy map stores a cell.
pub open spec fn cell_key(p: Position) -> u32 {
    ((p.x as u32) << 16u32) | (p.y as u32)
}

proof fn lemma_cell_key_injective(p: Position, q: Position)
    ensures
        cell_key(p) == cell_key(q) ==> p == q,
{
    let (px, py, qx, qy) = (p.x, p.y, q.x, q.y);
    assert((((px as u32) << 16u32) | (py as u32)) == (((qx as u32) << 16u32) | (qy as u32)) ==> px
        == qx && py == qy) by (bit_vector);
}

proof fn lemma_cell_keys_injective()
    ensures
        forall|p: Position, q: Position| #[trigger] cell_key(p) == #[trigger] cell_key(q) ==> p == q,
{
    assert forall|p: Position, q: Position| #[trigger] cell_key(p) == #[trigger] cell_key(q) implies p
        == q by {
        lemma_cell_key_injective(p, q);
    }
}

/// Where the creatures are. Each cell holds at most one creature, named by
/// an identity that the caller chooses (an index into its own roster).
pub struct World {
    coordinates: HashMap<u32, usize>,
    boundary: Size,
}

impl View for World {
    type V = Map<Position, usize>;

    /// The occupancy map: each occupied cell and the creature on it.
    closed spec fn view(&self) -> Map<Position, usize> {
        Map::new(
            |p: Position| self.coordinates@.contains_key(cell_key(p)),
            |p: Position| self.coordinates@[cell_key(p)],
        )
    }
}

/// The occupancy after the creature on `from` moves to `to`: the old entry
/// is gone and exactly one new entry names the same creature.
pub open spec fn moved(occupancy: Map<Position, usize>, from: Position, to: Position) -> Map<
    Position,
    usize,
> {
    occupancy.remove(from).insert(to, occupancy[from])
}

/// A legal move keeps the number of creatures: one entry leaves, one
/// arrives, and the arriving entry names the creature that left.
pub proof fn lemma_move_keeps_population(
    occupancy: Map<Position, usize>,
    from: Position,
    to: Position,
)
    requires
        occupancy.dom().finite(),
        occupancy.contains_key(from),
        !occupancy.contains_key(to),
    ensures
        moved(occupancy, from, to).dom().finite(),
        moved(occupancy, from, to).dom().len() == occupancy.dom().len(),
        !moved(occupancy, from, to).contains_key(from),
        moved(occupancy, from, to)[to] == occupancy[from],
{
    let removed = occupancy.remove(from);
    assert(removed.dom() =~= occupancy.dom().remove(from));
    assert(moved(occupancy, from, to).dom() =~= removed.dom().insert(to));
}

impl World {
    /// The extent of the world.
    pub closed spec fn size(&self) -> Size {
        self.boundary
    }

    /// The extent of the world.
    pub fn boundary(&self) -> (r: Size)
        ensures
            r == self.size(),
    {
        self.boundary
    }

    /// An empty world of 128 by 128 cells.
    pub fn init() -> (r: World)
        ensures
            r@ == Map::<Position, usize>::empty(),
            r.size() == (Size { width: 128, height: 128 }),
    {
        let r = World { coordinates: HashMap::new(), boundary: Size { height: 128, width: 128 } };
        assert(r@ =~= Map::<Position, usize>::empty());
        r
    }

    /// Whether a creature stands on `position`.
    pub fn is_occupied(&self, position: &Position) -> (r: bool)
        ensures
            r == self@.contains_key(*position),
    {
        self.coordinates.contains_key(&Position::key(position))
    }

    /// Puts `creature` on `position`, replacing whoever stood there.
    pub fn place(&mut self, position: Position, creature: usize)
        ensures
            final(self)@ == old(self)@.insert(position, creature),
            final(self).size() == old(self).size(),
    {
        let key = Position::key(&position);
        self.coordinates.insert(key, creature);
        proof {
            lemma_cell_keys_injective();
        }
        assert(self@ =~= old(self)@.insert(position, creature));
    }

    /// Moves the creature standing on `*position` to `next_position`,
    /// updating the world and `*position` together.
    ///
    /// Fails with `PositionDesync`, changing nothing, where no creature
    /// stands on `*position`. Otherwise the move is silently refused, and
    /// nothing changes, where `next_position` is occupied (the mover's own
    /// cell included) or outside the world.
    pub fn move_creature(&mut self, position: &mut Position, next_position: Position) -> (r: Result<
        (),
        WorldError,
    >)
        ensures
            r is Err <==> !old(self)@.contains_key(*old(position)),
            r is Err ==> r->Err_0 == WorldError::PositionDesync,
            final(self).size() == old(self).size(),
            (r is Err || old(self)@.contains_key(next_position) || !old(self).size().contains(
                next_position,
            )) ==> final(self)@ == old(self)@ && *final(position) == *old(position),
            (r is Ok && !old(self)@.contains_key(next_position) && old(self).size().contains(
                next_position,
            )) ==> final(self)@ == moved(old(self)@, *old(position), next_position)
                && *final(position) == next_position,
    {
        let from = Position::key(position);
        if !self.coordinates.contains_key(&from) {
            return Err(WorldError::PositionDesync);
        }
        if self.is_occupied(&next_position) {
            return Ok(());
        }
        if !self.boundary.inside(&next_position) {
            return Ok(());
        }
        let ghost before = self@;
        let creature = *self.coordinates.get(&from).unwrap();
        self.coordinates.remove(&from);
        *position = next_position;
        self.coordinates.insert(Position::key(&next_position), creature);
        proof {
            lemma_cell_keys_injective();
        }
        assert(self@ =~= moved(before, *old(position), next_position));
        Ok(())
    }

    /// Puts `creature` on the cell that two random numbers select,
    /// `(rx % width, ry % height)`, where that cell is free. Returns the cell,
    /// or `None` (changing nothing) where it is taken.
    pub fn spawn(&mut self, creature: usize, rx: u16, ry: u16) -> (r: Option<Position>)
        requires
            old(self).size().width > 0,
            old(self).size().height > 0,
        ensures
            final(self).size() == old(self).size(),
            ({
                let cell = Position {
                    x: (rx % old(self).size().width) as u16,
                    y: (ry % old(self).size().height) as u16,
                };
                if old(self)@.contains_key(cell) {
                    r is None && final(self)@ == old(self)@
                } else {
                    r == Some(cell) && final(self)@ == old(self)@.insert(cell, creature)
                }
            }),
    {
        let cell = Position { x: rx % self.boundary.width, y: ry % self.boundary.height };
        if self.is_occupied(&cell) {
            return None;
        }
        self.place(cell, creature);
        Some(cell)
    }

    /// Whether the cell ahead of a creature on `position` facing `direction`
    /// is occupied or outside the world.
    pub fn block_forward(&self, position: &Position, direction: &Direction) -> (r: bool)
        ensures
            r == match step_towards(*position, *direction, 1, self.size()) {
                Some(ahead) => self@.contains_key(ahead),
                None => true,
            },
    {
        match position.move_direction(direction, 1, &self.boundary) {
            Some(ahead) => self.is_occupied(&ahead),
            None => true,
        }
    }

    /// Whether either side cell of a creature on `position` facing
    /// `direction` is occupied.
    pub fn block_left_right(&self, position: &Position, direction: &Direction) -> (r: bool)
        ensures
            r == (occupied_step(self@, *position, right_of(*direction), self.size())
                || occupied_step(self@, *position, left_of(*direction), self.size())),
    {
        let right = position.move_direction(&direction.rotate_right(), 1, &self.boundary);
        let left = position.move_direction(&direction.rotate_left(), 1, &self.boundary);
        let right_blocked = match right {
            Some(cell) => self.is_occupied(&cell),
            None => false,
        };
        let left_blocked = match left {
            Some(cell) => self.is_occupied(&cell),
            None => false,
        };
        right_blocked || left_blocked
    }
}

/// Whether the cell one step from `p` towards `d` is inside the world and
/// occupied.
pub open spec fn occupied_step(
    occupancy: Map<Position, usize>,
    p: Position,
    d: Direction,
    boundary: Size,
) -> bool {
    match step_towards(p, d, 1, boundary) {
        Some(cell) => occupancy.contains_key(cell),
        None => false,
    }
}

impl Position {
    fn key(p: &Position) -> (r: u32)
        ensures
            r == cell_key(*p),
    {
        ((p.x as u32) << 16u32) | (p.y as u32)
    }
}

} // verus!
