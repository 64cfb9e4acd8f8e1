//! The player: head position, travel direction, trailing segments and
//! energy, with movement, growth and shrinking.

use vstd::prelude::*;

use crate::geometry::{
    direction_between, get_direction, in_grid, neighbor_spec, opposite_spec, Direction, Point,
};
use crate::{CELLS_X_LEN, CELLS_Y_LEN, ENERGY_MAX};

verus! {

/// The player-controlled snake.
pub struct Player {
    /// Head cell.
    pub p: Point,
    /// Current travel direction.
    pub direction: Direction,
    /// Trailing segments, head-to-tail order.
    pub bodies: Vec<Point>,
    /// Remaining energy; each move step costs one unit.
    pub energy: i32,
}

/// Mathematical model of a `Player`.
#[verifier::ext_equal]
pub ghost struct PlayerV {
    pub p: Point,
    pub direction: Direction,
    pub bodies: Seq<Point>,
    pub energy: int,
}

impl View for Player {
    type V = PlayerV;

    open spec fn view(&self) -> PlayerV {
        PlayerV {
            p: self.p,
            direction: self.direction,
            bodies: self.bodies@,
            energy: self.energy as int,
        }
    }
}

/// Well-formedness of a player: every cell it occupies lies in the grid,
/// and the energy sits in `[-1, ENERGY_MAX]` (it reaches `-1` only on the
/// move step that exhausts it, which ends the game within the same frame).
pub open spec fn player_wf(p: PlayerV) -> bool {
    &&& in_grid(p.p)
    &&& forall|i: int| 0 <= i < p.bodies.len() ==> in_grid(#[trigger] p.bodies[i])
    &&& -1 <= p.energy <= ENERGY_MAX
}

/// One move step: the energy drops by one, every trailing segment takes the
/// position of the segment ahead of it (the first one takes the head's),
/// and the head advances to the neighbor cell in the travel direction.
pub open spec fn move_spec(p: PlayerV) -> PlayerV {
    PlayerV {
        p: neighbor_spec(p.p, p.direction),
        bodies: if p.bodies.len() >= 1 {
            seq![p.p] + p.bodies.drop_last()
        } else {
            p.bodies
        },
        ..p
    }.energy_set(p.energy - 1)
}

impl PlayerV {
    /// `self` with the energy replaced.
    pub open spec fn energy_set(self, e: int) -> PlayerV {
        PlayerV { energy: e, ..self }
    }
}

/// The cell a new trailing segment is placed on: directly behind whichever
/// point currently ends the trail, continuing the trail's direction of
/// travel in a straight line.
pub open spec fn grow_pos_spec(p: PlayerV) -> Point {
    if p.bodies.len() == 0 {
        neighbor_spec(p.p, opposite_spec(p.direction))
    } else if p.bodies.len() == 1 {
        neighbor_spec(p.bodies[0], direction_between(p.p, p.bodies[0]))
    } else {
        neighbor_spec(
            p.bodies[p.bodies.len() - 1],
            direction_between(p.bodies[p.bodies.len() - 2], p.bodies[p.bodies.len() - 1]),
        )
    }
}

/// Growth appends one new trailing segment at `grow_pos_spec`.
pub open spec fn grow_spec(p: PlayerV) -> PlayerV {
    PlayerV { bodies: p.bodies.push(grow_pos_spec(p)), ..p }
}

/// Shrinking drops the last trailing segment; on an empty trail it is a
/// no-op.
pub open spec fn shrink_spec(p: PlayerV) -> PlayerV {
    PlayerV {
        bodies: if p.bodies.len() > 0 {
            p.bodies.drop_last()
        } else {
            p.bodies
        },
        ..p
    }
}

impl Player {
    /// A fresh player: head at the middle of the grid, looking up, with no
    /// trailing segments and full energy.
    pub fn new() -> (r: Player)
        ensures
            r@.p == (Point { x: 10, y: 10 }),
            r@.direction == Direction::Up,
            r@.bodies == Seq::<Point>::empty(),
            r@.energy == ENERGY_MAX,
            player_wf(r@),
    {
        let player = Player {
            p: Point::new(CELLS_X_LEN / 2, CELLS_Y_LEN / 2),
            direction: Direction::Up,
            bodies: Vec::new(),
            energy: ENERGY_MAX,
        };
        player
    }

    /// Turns the player; nothing else changes.
    pub fn set_direction(&mut self, direction: Direction)
        ensures
            final(self)@ == (PlayerV { direction: direction, ..old(self)@ }),
    {
        self.direction = direction;
    }

    /// The render rotation of the head in degrees, clockwise-positive:
    /// up is 0, right 90, down 180, left 270.
    pub fn get_angle(&self) -> (r: u32)
        ensures
            r == angle_spec(self@.direction),
    {
        match self.direction {
            Direction::Left => 270,
            Direction::Right => 90,
            Direction::Down => 180,
            Direction::Up => 0,
        }
    }

    /// Advances the player one cell in its travel direction, shifting the
    /// trailing segments along and spending one unit of energy.
    pub fn do_move(&mut self)
        requires
            player_wf(old(self)@),
            old(self)@.energy >= 0,
        ensures
            final(self)@ == move_spec(old(self)@),
            player_wf(final(self)@),
    {
        self.energy = self.energy - 1;

        let ghost bodies0 = self.bodies@;
        self.bodies.insert(0, self.p);
        self.bodies.pop();
        proof {
            if bodies0.len() >= 1 {
                assert(self.bodies@ =~= seq![self.p] + bodies0.drop_last());
            } else {
                assert(self.bodies@ =~= bodies0);
            }
        }

        self.p = self.p.neighbor(self.direction);
    }

    /// Appends a new trailing segment behind the current end of the trail.
    pub fn grow(&mut self)
        requires
            player_wf(old(self)@),
        ensures
            final(self)@ == grow_spec(old(self)@),
            player_wf(final(self)@),
    {
        let new_pos = if self.bodies.len() == 0 {
            self.p.neighbor(self.direction.opposite())
        } else if self.bodies.len() == 1 {
            let direction = get_direction(self.p, self.bodies[0]);
            self.bodies[0].neighbor(direction)
        } else {
            let direction = get_direction(
                self.bodies[self.bodies.len() - 2],
                self.bodies[self.bodies.len() - 1],
            );
            let last_pos = self.bodies[self.bodies.len() - 1];
            last_pos.neighbor(direction)
        };
        self.bodies.push(new_pos);
    }

    /// Drops the last trailing segment; a no-op when there is none.
    pub fn shrink(&mut self)
        ensures
            final(self)@ == shrink_spec(old(self)@),
    {
        self.bodies.pop();
    }
}

/// The render rotation, in degrees, of a head that travels in direction
/// `d`; the convention is clockwise-positive with up at 0.
pub open spec fn angle_spec(d: Direction) -> u32 {
    match d {
        Direction::Left => 270,
        Direction::Right => 90,
        Direction::Down => 180,
        Direction::Up => 0,
    }
}

} // verus!
