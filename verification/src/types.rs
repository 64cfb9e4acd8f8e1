//! Plain value types of the simulation: commands, food colors, pooled
//! food and hazard slots, and sound-effect identifiers.

use vstd::prelude::*;

use crate::geometry::Point;

verus! {

/// One frame's worth of input, as mapped from the keyboard. `Idle` stands
/// for a frame without directional input and leaves the player's direction
/// unchanged.
#[derive(Clone, Copy, Debug)]
pub enum Command {
    Idle,
    Left,
    Right,
    Down,
    Up,
}

/// Color of a food item; decides the energy reward and the score bucket.
/// `White` is the neutral color: eating it shrinks the player instead of
/// feeding it.
#[derive(Clone, Copy, Debug, PartialEq, Eq, Structural)]
pub enum FoodColor {
    White,
    Red,
    Yellow,
    Blue,
}

/// Index of `c` in the fixed color order (the order of `FoodColor::all`).
pub open spec fn color_index(c: FoodColor) -> int {
    match c {
        FoodColor::White => 0,
        FoodColor::Red => 1,
        FoodColor::Yellow => 2,
        FoodColor::Blue => 3,
    }
}

/// Energy reward of a food of color `c`.
pub open spec fn color_energy(c: FoodColor) -> int {
    match c {
        FoodColor::White => 0,
        FoodColor::Red => 20,
        FoodColor::Yellow => 10,
        FoodColor::Blue => 5,
    }
}

impl FoodColor {
    /// Every color, once, in the fixed order.
    pub fn all() -> (r: Vec<FoodColor>)
        ensures
            r@ == seq![FoodColor::White, FoodColor::Red, FoodColor::Yellow, FoodColor::Blue],
    {
        let mut v: Vec<FoodColor> = Vec::new();
        v.push(FoodColor::White);
        v.push(FoodColor::Red);
        v.push(FoodColor::Yellow);
        v.push(FoodColor::Blue);
        proof {
            assert(v@ =~= seq![
                FoodColor::White,
                FoodColor::Red,
                FoodColor::Yellow,
                FoodColor::Blue,
            ]);
        }
        v
    }

    /// The energy reward of this color.
    pub fn energy(&self) -> (r: i32)
        ensures
            r as int == color_energy(*self),
    {
        match self {
            FoodColor::White => 0,
            FoodColor::Red => 20,
            FoodColor::Yellow => 10,
            FoodColor::Blue => 5,
        }
    }

    /// The index of this color in the fixed color order.
    pub fn index(&self) -> (r: usize)
        ensures
            r as int == color_index(*self),
    {
        match self {
            FoodColor::White => 0,
            FoodColor::Red => 1,
            FoodColor::Yellow => 2,
            FoodColor::Blue => 3,
        }
    }
}

/// The color assigned to a freshly spawned food for a weighted draw
/// `roll` in `[0, 100)`: the cumulative weights give 40% Blue, 35% Yellow,
/// 20% Red and 5% White.
pub open spec fn color_for_roll_spec(roll: int) -> FoodColor {
    if roll < 40 {
        FoodColor::Blue
    } else if roll < 75 {
        FoodColor::Yellow
    } else if roll < 95 {
        FoodColor::Red
    } else {
        FoodColor::White
    }
}

/// Maps a weighted draw in `[0, 100)` to the spawned food's color.
pub fn color_for_roll(roll: usize) -> (c: FoodColor)
    ensures
        c == color_for_roll_spec(roll as int),
{
    if roll < 40 {
        FoodColor::Blue
    } else if roll < 75 {
        FoodColor::Yellow
    } else if roll < 95 {
        FoodColor::Red
    } else {
        FoodColor::White
    }
}

/// One pooled food slot: a fixed grid cell that is toggled active and
/// inactive rather than allocated and freed.
#[derive(Clone, Copy, Debug, PartialEq, Eq, Structural)]
pub struct Food {
    pub color: FoodColor,
    pub p: Point,
    pub is_exist: bool,
}

/// One pooled hazard slot, with the same active/inactive lifecycle as a
/// food slot; its position is set each time it is spawned.
#[derive(Clone, Copy, Debug, PartialEq, Eq, Structural)]
pub struct Poo {
    pub p: Point,
    pub is_exist: bool,
}

/// A sound-effect cue queued during `update` and drained by the audio
/// collaborator once per frame.
#[derive(Clone, Copy, Debug, PartialEq, Eq, Structural)]
pub enum Sound {
    Crash,
    Eat,
    Shrink,
    ToneA4,
    ToneD4,
    ToneE4,
    ToneG4,
}

} // verus!
