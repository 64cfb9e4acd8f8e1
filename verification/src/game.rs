//! The game state machine: one `update` call advances the simulation by a
//! single frame.

use vstd::prelude::*;
use vstd::arithmetic::div_mod::lemma_fundamental_div_mod_converse;

use crate::geometry::{in_grid, neighbor_spec, opposite_spec, Direction, Point};
use crate::player::{
    grow_pos_spec, grow_spec, move_spec, player_wf, shrink_spec, Player, PlayerV,
};
use crate::rng::{rand_below, rng_from_seed};
use crate::types::{
    color_energy, color_for_roll, color_for_roll_spec, color_index, Command, Food, FoodColor, Poo,
    Sound,
};
use crate::{CELLS_X_LEN, ENERGY_MAX, N_CELLS};

verus! {

/// The whole game state. The rendering and audio collaborators read the
/// public fields once per frame; only `update` (and an external restart via
/// `new`) mutates them.
pub struct Game {
    /// Generator for spawn draws; owned by the game and seeded once.
    pub rng: rand::rngs::StdRng,
    /// Terminal flag: once set, `update` is a no-op.
    pub is_over: bool,
    /// Number of completed `update` calls since the start.
    pub frame: i32,
    pub player: Player,
    /// Derived score: `frame / 30`.
    pub score: i32,
    /// Sound cues queued this frame, drained by the audio collaborator.
    pub requested_sounds: Vec<Sound>,
    /// How many foods of each color were eaten, indexed by `color_index`.
    pub ate_counts: Vec<i32>,
    /// Pooled food slots, one per grid cell, in `cell_of` order.
    pub foods: Vec<Food>,
    /// Pooled hazard slots.
    pub poos: Vec<Poo>,
    /// Frame on which a hazard spawn is scheduled; -1 means none.
    pub poo_spawn_frame: i32,
    /// How many non-neutral foods were eaten in total.
    pub ate_count: i32,
}

/// Mathematical model of a `Game`. The generator has no model: nothing is
/// stated about the stream it produces.
#[verifier::ext_equal]
pub ghost struct GameV {
    pub is_over: bool,
    pub frame: int,
    pub player: PlayerV,
    pub score: int,
    pub requested_sounds: Seq<Sound>,
    pub ate_counts: Seq<int>,
    pub foods: Seq<Food>,
    pub poos: Seq<Poo>,
    pub poo_spawn_frame: int,
    pub ate_count: int,
}

impl View for Game {
    type V = GameV;

    open spec fn view(&self) -> GameV {
        GameV {
            is_over: self.is_over,
            frame: self.frame as int,
            player: self.player@,
            score: self.score as int,
            requested_sounds: self.requested_sounds@,
            ate_counts: Seq::new(self.ate_counts@.len(), |i: int| self.ate_counts@[i] as int),
            foods: self.foods@,
            poos: self.poos@,
            poo_spawn_frame: self.poo_spawn_frame as int,
            ate_count: self.ate_count as int,
        }
    }
}

/// The fixed cell of pool slot `i`: slots enumerate the grid row by row.
pub open spec fn cell_of(i: int) -> Point {
    Point { x: (i % (CELLS_X_LEN as int)) as i32, y: (i / (CELLS_X_LEN as int)) as i32 }
}

/// The pool slot of cell `p`.
pub open spec fn idx_of(p: Point) -> int {
    p.y * (CELLS_X_LEN as int) + p.x
}

/// For a cell inside the grid, `idx_of` is the inverse of `cell_of`.
pub proof fn lemma_cell_idx(p: Point)
    requires
        in_grid(p),
    ensures
        0 <= idx_of(p) < N_CELLS,
        cell_of(idx_of(p)) == p,
{
    lemma_fundamental_div_mod_converse(idx_of(p), CELLS_X_LEN as int, p.y as int, p.x as int);
}

/// Structural well-formedness that every step of `update` preserves: the
/// pools cover the grid, every held cell lies inside it, and the counters
/// are bounded by the frame counter (at most one food is eaten per frame).
pub open spec fn step_wf(g: GameV) -> bool {
    &&& player_wf(g.player)
    &&& 0 <= g.frame
    &&& g.foods.len() == N_CELLS
    &&& forall|i: int| 0 <= i < N_CELLS ==> (#[trigger] g.foods[i]).p == cell_of(i)
    &&& g.poos.len() == N_CELLS
    &&& forall|i: int| 0 <= i < N_CELLS ==> in_grid((#[trigger] g.poos[i]).p)
    &&& g.ate_counts.len() == 4
    &&& forall|j: int| 0 <= j < 4 ==> 0 <= #[trigger] g.ate_counts[j] <= g.frame
    &&& 0 <= g.ate_count <= g.frame
}

/// The game invariant: structural well-formedness, a running game never has
/// negative energy (exhaustion ends the game within the frame it happens),
/// and the score is derived from the frame counter.
pub open spec fn game_wf(g: GameV) -> bool {
    &&& step_wf(g)
    &&& !g.is_over ==> g.player.energy >= 0
    &&& g.score == g.frame / 30
}

impl Game {
    /// A fresh game: frame zero, a new player, empty counters, all pooled
    /// slots inactive, no hazard scheduled, and a generator built from
    /// `seed` (the host passes wall-clock seconds; tests pass a fixed seed).
    pub fn new(seed: u64) -> (g: Game)
        ensures
            game_wf(g@),
            !g@.is_over,
            g@.frame == 0,
            g@.player.p == (Point { x: 10, y: 10 }),
            g@.player.direction == Direction::Up,
            g@.player.bodies == Seq::<Point>::empty(),
            g@.player.energy == ENERGY_MAX,
            g@.score == 0,
            g@.requested_sounds == Seq::<Sound>::empty(),
            g@.ate_counts == seq![0int, 0int, 0int, 0int],
            g@.foods.len() == N_CELLS,
            forall|i: int| 0 <= i < N_CELLS ==> g@.foods[i] == (Food {
                color: FoodColor::Red,
                p: cell_of(i),
                is_exist: false,
            }),
            g@.poos.len() == N_CELLS,
            forall|i: int| 0 <= i < N_CELLS ==> g@.poos[i] == (Poo {
                p: cell_of(i),
                is_exist: false,
            }),
            g@.poo_spawn_frame == -1,
            g@.ate_count == 0,
    {
        let rng = rng_from_seed(seed);

        let mut ate_counts: Vec<i32> = Vec::new();
        ate_counts.push(0);
        ate_counts.push(0);
        ate_counts.push(0);
        ate_counts.push(0);

        let mut foods: Vec<Food> = Vec::new();
        let mut k: usize = 0;
        while k < N_CELLS
            invariant
                k <= N_CELLS,
                foods@.len() == k,
                forall|i: int| 0 <= i < k ==> foods@[i] == (Food {
                    color: FoodColor::Red,
                    p: cell_of(i),
                    is_exist: false,
                }),
            decreases N_CELLS - k,
        {
            let c = k as i32;
            foods.push(Food {
                color: FoodColor::Red,
                p: Point { x: c % CELLS_X_LEN, y: c / CELLS_X_LEN },
                is_exist: false,
            });
            k = k + 1;
        }

        let mut poos: Vec<Poo> = Vec::new();
        let mut k: usize = 0;
        while k < N_CELLS
            invariant
                k <= N_CELLS,
                poos@.len() == k,
                forall|i: int| 0 <= i < k ==> poos@[i] == (Poo { p: cell_of(i), is_exist: false }),
            decreases N_CELLS - k,
        {
            let c = k as i32;
            poos.push(Poo { p: Point { x: c % CELLS_X_LEN, y: c / CELLS_X_LEN }, is_exist: false });
            k = k + 1;
        }

        let game = Game {
            rng,
            is_over: false,
            frame: 0,
            player: Player::new(),
            score: 0,
            requested_sounds: Vec::new(),
            ate_counts,
            foods,
            poos,
            poo_spawn_frame: -1,
            ate_count: 0,
        };
        proof {
            assert(game@.ate_counts =~= seq![0int, 0int, 0int, 0int]);
            assert forall|i: int| 0 <= i < N_CELLS implies in_grid(#[trigger] cell_of(i)) by {
                lemma_cell_bounds(i);
            }
        }
        game
    }
}

/// The tone cue queued for a directional command.
pub open spec fn tone_of(d: Direction) -> Sound {
    match d {
        Direction::Left => Sound::ToneE4,
        Direction::Right => Sound::ToneD4,
        Direction::Down => Sound::ToneA4,
        Direction::Up => Sound::ToneG4,
    }
}

/// Step one of a frame: a directional command turns the player and queues
/// its tone cue; an idle command changes nothing.
pub open spec fn apply_command_spec(g: GameV, c: Command) -> GameV {
    match c {
        Command::Idle => g,
        Command::Left => turn_spec(g, Direction::Left),
        Command::Right => turn_spec(g, Direction::Right),
        Command::Down => turn_spec(g, Direction::Down),
        Command::Up => turn_spec(g, Direction::Up),
    }
}

/// The game with the player turned towards `d` and `d`'s tone cue queued.
pub open spec fn turn_spec(g: GameV, d: Direction) -> GameV {
    GameV {
        player: PlayerV { direction: d, ..g.player },
        requested_sounds: g.requested_sounds.push(tone_of(d)),
        ..g
    }
}

/// The movement gate: the player advances once every 8 frames, on the last
/// frame of each 8-frame window.
pub open spec fn is_move_frame(frame: int) -> bool {
    frame % 8 == 7
}

/// How many of the first `n` food slots are active.
pub open spec fn foods_count_spec(foods: Seq<Food>, n: int) -> int
    decreases n,
{
    if n <= 0 {
        0
    } else {
        foods_count_spec(foods, n - 1) + if foods[n - 1].is_exist {
            1int
        } else {
            0int
        }
    }
}

/// The food spawn gate: every 30 frames, while fewer than 5 foods are
/// active.
pub open spec fn spawn_gate(g: GameV) -> bool {
    g.frame != 0 && g.frame % 30 == 0 && foods_count_spec(g.foods, g.foods.len() as int) < 5
}

/// A food spawn attempt on slot `slot` with color draw `roll`: an inactive
/// slot becomes active with the drawn color; an already active slot leaves
/// the attempt silently skipped.
pub open spec fn spawn_food_spec(g: GameV, slot: int, roll: int) -> GameV {
    if !g.foods[slot].is_exist {
        GameV {
            foods: g.foods.update(
                slot,
                Food { color: color_for_roll_spec(roll), p: g.foods[slot].p, is_exist: true },
            ),
            ..g
        }
    } else {
        g
    }
}

/// Where a hazard spawns: at the player's tail end, or one cell behind the
/// head when there are no trailing segments.
pub open spec fn poo_pos_spec(p: PlayerV) -> Point {
    if p.bodies.len() > 0 {
        p.bodies[p.bodies.len() - 1]
    } else {
        neighbor_spec(p.p, opposite_spec(p.direction))
    }
}

/// Index of the first inactive hazard slot at or after `i`; the pool length
/// when all of them are active.
pub open spec fn first_free_poo(poos: Seq<Poo>, i: int) -> int
    decreases poos.len() - i,
{
    if i < 0 || i >= poos.len() {
        poos.len() as int
    } else if !poos[i].is_exist {
        i
    } else {
        first_free_poo(poos, i + 1)
    }
}

/// A hazard spawn: the first inactive slot is placed on `poo_pos_spec` and
/// activated; with no free slot the spawn is dropped silently.
pub open spec fn spawn_poo_spec(g: GameV) -> GameV {
    let k = first_free_poo(g.poos, 0);
    if k < g.poos.len() {
        GameV { poos: g.poos.update(k, Poo { p: poo_pos_spec(g.player), is_exist: true }), ..g }
    } else {
        g
    }
}

/// Clamps `v` into `[lo, hi]`.
pub open spec fn clamp_spec(lo: int, v: int, hi: int) -> int {
    if v < lo {
        lo
    } else if v > hi {
        hi
    } else {
        v
    }
}

/// Consumption: when the food slot of the head's cell is active, it is
/// deactivated and its color's eaten-count rises. The neutral color shrinks
/// the player and queues the shrink cue; any other color feeds the player
/// (energy reward clamped into `[0, ENERGY_MAX]`), grows it, counts the eat
/// and — on every third one — schedules a hazard spawn 60 frames ahead,
/// and queues the eat cue.
pub open spec fn eat_spec(g: GameV) -> GameV {
    let k = idx_of(g.player.p);
    if 0 <= k < g.foods.len() && g.foods[k].is_exist {
        let color = g.foods[k].color;
        let g1 = GameV {
            foods: g.foods.update(k, Food { is_exist: false, ..g.foods[k] }),
            ate_counts: g.ate_counts.update(
                color_index(color),
                g.ate_counts[color_index(color)] + 1,
            ),
            ..g
        };
        if color == FoodColor::White {
            GameV {
                player: shrink_spec(g1.player),
                requested_sounds: g1.requested_sounds.push(Sound::Shrink),
                ..g1
            }
        } else {
            let fed = g1.player.energy_set(
                clamp_spec(0, g1.player.energy + color_energy(color), ENERGY_MAX as int),
            );
            let g2 = GameV { player: grow_spec(fed), ate_count: g1.ate_count + 1, ..g1 };
            let g3 = if g2.ate_count % 3 == 0 {
                GameV { poo_spawn_frame: g.frame + 60, ..g2 }
            } else {
                g2
            };
            GameV { requested_sounds: g3.requested_sounds.push(Sound::Eat), ..g3 }
        }
    } else {
        g
    }
}

/// One hazard slot's frame work: an active hazard under the player's head
/// is deactivated, ends the game and queues the crash cue; an active hazard
/// also destroys the food sharing its cell.
pub open spec fn poo_step(g: GameV, i: int) -> GameV {
    if g.poos[i].is_exist {
        let g1 = if g.poos[i].p == g.player.p {
            GameV {
                poos: g.poos.update(i, Poo { is_exist: false, ..g.poos[i] }),
                is_over: true,
                requested_sounds: g.requested_sounds.push(Sound::Crash),
                ..g
            }
        } else {
            g
        };
        let k = idx_of(g.poos[i].p);
        if 0 <= k < g1.foods.len() && g1.foods[k].is_exist {
            GameV { foods: g1.foods.update(k, Food { is_exist: false, ..g1.foods[k] }), ..g1 }
        } else {
            g1
        }
    } else {
        g
    }
}

/// The hazard pass over the first `n` slots, in order.
pub open spec fn poo_pass_spec(g: GameV, n: int) -> GameV
    decreases n,
{
    if n <= 0 {
        g
    } else {
        poo_step(poo_pass_spec(g, n - 1), n - 1)
    }
}

/// One trailing segment's self-collision check: a segment under the head
/// ends the game and queues the crash cue.
pub open spec fn body_hit_step(g: GameV, i: int) -> GameV {
    if g.player.bodies[i] == g.player.p {
        GameV { is_over: true, requested_sounds: g.requested_sounds.push(Sound::Crash), ..g }
    } else {
        g
    }
}

/// The self-collision pass over the first `n` trailing segments.
pub open spec fn self_crash_spec(g: GameV, n: int) -> GameV
    decreases n,
{
    if n <= 0 {
        g
    } else {
        body_hit_step(self_crash_spec(g, n - 1), n - 1)
    }
}

/// Energy exhaustion ends the game and queues the crash cue.
pub open spec fn energy_check_spec(g: GameV) -> GameV {
    if g.player.energy < 0 {
        GameV { is_over: true, requested_sounds: g.requested_sounds.push(Sound::Crash), ..g }
    } else {
        g
    }
}

/// The frame counter advances and the score is derived from it.
pub open spec fn advance_spec(g: GameV) -> GameV {
    GameV { frame: g.frame + 1, score: (g.frame + 1) / 30, ..g }
}

/// Steps one and two of a frame: the command is applied, then the movement
/// gate fires or not.
pub open spec fn stage_command_move(g: GameV, c: Command) -> GameV {
    let g1 = apply_command_spec(g, c);
    if is_move_frame(g1.frame) {
        GameV { player: move_spec(g1.player), ..g1 }
    } else {
        g1
    }
}

/// The two spawn gates: a food spawn attempt with the draws `slot` and
/// `roll` when the food gate fires, then a hazard spawn when this is the
/// scheduled frame.
pub open spec fn stage_spawns(g: GameV, slot: int, roll: int) -> GameV {
    let g3 = if spawn_gate(g) {
        spawn_food_spec(g, slot, roll)
    } else {
        g
    };
    if g3.frame == g3.poo_spawn_frame {
        spawn_poo_spec(g3)
    } else {
        g3
    }
}

/// The frame's collision work: consumption, the hazard pass, the
/// self-collision pass, and the energy exhaustion check.
pub open spec fn stage_passes(g: GameV) -> GameV {
    let g5 = eat_spec(g);
    let g6 = poo_pass_spec(g5, g5.poos.len() as int);
    let g7 = self_crash_spec(g6, g6.player.bodies.len() as int);
    energy_check_spec(g7)
}

/// One full frame of a running game, given the two spawn draws `slot` and
/// `roll` (used only when the food spawn gate fires): command, movement
/// gate, spawn gates, consumption, hazard pass, self-collision, energy
/// exhaustion, frame advance.
pub open spec fn update_spec(g: GameV, c: Command, slot: int, roll: int) -> GameV {
    advance_spec(stage_passes(stage_spawns(stage_command_move(g, c), slot, roll)))
}

/// The cell of any slot lies inside the grid.
proof fn lemma_cell_bounds(i: int)
    requires
        0 <= i < N_CELLS,
    ensures
        in_grid(cell_of(i)),
        cell_of(i).y * (CELLS_X_LEN as int) + cell_of(i).x == i,
{
    vstd::arithmetic::div_mod::lemma_fundamental_div_mod(i, CELLS_X_LEN as int);
}

/// The hazard pass only deactivates hazards and foods and can end the game:
/// everything else — the player, the counters, the cells every slot holds —
/// stays as it was.
proof fn lemma_poo_pass_effects(g: GameV, n: int)
    requires
        0 <= n <= g.poos.len(),
    ensures
        poo_pass_spec(g, n).player == g.player,
        poo_pass_spec(g, n).frame == g.frame,
        poo_pass_spec(g, n).score == g.score,
        poo_pass_spec(g, n).ate_counts == g.ate_counts,
        poo_pass_spec(g, n).ate_count == g.ate_count,
        poo_pass_spec(g, n).poo_spawn_frame == g.poo_spawn_frame,
        poo_pass_spec(g, n).foods.len() == g.foods.len(),
        forall|i: int| 0 <= i < g.foods.len() ==> (#[trigger] poo_pass_spec(g, n).foods[i]).p
            == g.foods[i].p,
        poo_pass_spec(g, n).poos.len() == g.poos.len(),
        forall|i: int| 0 <= i < g.poos.len() ==> (#[trigger] poo_pass_spec(g, n).poos[i]).p
            == g.poos[i].p,
        g.is_over ==> poo_pass_spec(g, n).is_over,
    decreases n,
{
    if n > 0 {
        lemma_poo_pass_effects(g, n - 1);
    }
}

/// The self-collision pass can only end the game and queue the crash cue.
proof fn lemma_self_crash_effects(g: GameV, n: int)
    ensures
        self_crash_spec(g, n).player == g.player,
        self_crash_spec(g, n).frame == g.frame,
        self_crash_spec(g, n).score == g.score,
        self_crash_spec(g, n).ate_counts == g.ate_counts,
        self_crash_spec(g, n).ate_count == g.ate_count,
        self_crash_spec(g, n).poo_spawn_frame == g.poo_spawn_frame,
        self_crash_spec(g, n).foods == g.foods,
        self_crash_spec(g, n).poos == g.poos,
        g.is_over ==> self_crash_spec(g, n).is_over,
    decreases n,
{
    if n > 0 {
        lemma_self_crash_effects(g, n - 1);
    }
}

/// Every slot skipped on the way to the first free one is active, so the
/// search can start anywhere in the skipped range.
proof fn lemma_first_free_skip(poos: Seq<Poo>, a: int, b: int)
    requires
        0 <= a <= b <= poos.len(),
        forall|j: int| a <= j < b ==> (#[trigger] poos[j]).is_exist,
    ensures
        first_free_poo(poos, a) == first_free_poo(poos, b),
    decreases b - a,
{
    if a < b {
        lemma_first_free_skip(poos, a + 1, b);
    }
}

/// The search for the first free slot never leaves `[i, len]`.
proof fn lemma_first_free_bounds(poos: Seq<Poo>, i: int)
    requires
        0 <= i <= poos.len(),
    ensures
        i <= first_free_poo(poos, i) <= poos.len(),
    decreases poos.len() - i,
{
    if i < poos.len() && poos[i].is_exist {
        lemma_first_free_bounds(poos, i + 1);
    }
}

/// The command and movement steps touch only the player and the queued
/// sounds, keep the player well-formed, and never raise the energy.
proof fn lemma_stage_command_move(g: GameV, c: Command)
    requires
        game_wf(g),
        !g.is_over,
    ensures
        stage_command_move(g, c) == (GameV {
            player: stage_command_move(g, c).player,
            requested_sounds: stage_command_move(g, c).requested_sounds,
            ..g
        }),
        step_wf(stage_command_move(g, c)),
        stage_command_move(g, c).player.energy <= g.player.energy,
{
    let g1 = apply_command_spec(g, c);
    if is_move_frame(g1.frame) {
        crate::geometry::lemma_neighbor_in_grid(g1.player.p, g1.player.direction);
        let mp = move_spec(g1.player);
        assert forall|i: int| 0 <= i < mp.bodies.len() implies in_grid(
            #[trigger] mp.bodies[i],
        ) by {
            if i > 0 {
                assert(mp.bodies[i] == g1.player.bodies[i - 1]);
            }
        }
        assert(player_wf(mp));
    }
}

/// The spawn steps touch only the pools and preserve well-formedness.
proof fn lemma_stage_spawns(g: GameV, slot: int, roll: int)
    requires
        step_wf(g),
        0 <= slot < N_CELLS,
    ensures
        stage_spawns(g, slot, roll) == (GameV {
            foods: stage_spawns(g, slot, roll).foods,
            poos: stage_spawns(g, slot, roll).poos,
            ..g
        }),
        step_wf(stage_spawns(g, slot, roll)),
{
    let g3 = if spawn_gate(g) {
        spawn_food_spec(g, slot, roll)
    } else {
        g
    };
    assert(step_wf(g3));
    if g3.frame == g3.poo_spawn_frame {
        lemma_first_free_bounds(g3.poos, 0);
        let k = first_free_poo(g3.poos, 0);
        if k < g3.poos.len() {
            if g3.player.bodies.len() == 0 {
                crate::geometry::lemma_neighbor_in_grid(
                    g3.player.p,
                    opposite_spec(g3.player.direction),
                );
            }
            assert(in_grid(poo_pos_spec(g3.player)));
        }
    }
}

/// Consumption deactivates at most the food under the head, feeds or
/// shrinks the player, and counts the eat; the energy rises only on a
/// non-neutral eat and is then clamped into `[0, ENERGY_MAX]`.
proof fn lemma_eat_effects(g: GameV)
    requires
        step_wf(g),
        g.frame + 61 <= i32::MAX,
    ensures
        eat_spec(g).is_over == g.is_over,
        eat_spec(g).frame == g.frame,
        eat_spec(g).score == g.score,
        eat_spec(g).poos == g.poos,
        eat_spec(g).foods.len() == g.foods.len(),
        forall|i: int| 0 <= i < g.foods.len() ==> (#[trigger] eat_spec(g).foods[i]).p
            == g.foods[i].p,
        eat_spec(g).ate_counts.len() == g.ate_counts.len(),
        forall|j: int| 0 <= j < g.ate_counts.len() ==> g.ate_counts[j]
            <= #[trigger] eat_spec(g).ate_counts[j] <= g.ate_counts[j] + 1,
        g.ate_count <= eat_spec(g).ate_count <= g.ate_count + 1,
        player_wf(eat_spec(g).player),
        eat_spec(g).player.energy <= g.player.energy || (eat_spec(g).ate_count == g.ate_count
            + 1 && 0 <= eat_spec(g).player.energy <= ENERGY_MAX),
    {
    let k = idx_of(g.player.p);
    if 0 <= k < g.foods.len() && g.foods[k].is_exist {
        let color = g.foods[k].color;
        if color == FoodColor::White {
            let sp = shrink_spec(g.player);
            assert forall|i: int| 0 <= i < sp.bodies.len() implies in_grid(
                #[trigger] sp.bodies[i],
            ) by {
                assert(sp.bodies[i] == g.player.bodies[i]);
            }
        } else {
            let fed = g.player.energy_set(
                clamp_spec(0, g.player.energy + color_energy(color), ENERGY_MAX as int),
            );
            let gp = grow_spec(fed);
            if fed.bodies.len() == 0 {
                crate::geometry::lemma_neighbor_in_grid(fed.p, opposite_spec(fed.direction));
            } else if fed.bodies.len() == 1 {
                crate::geometry::lemma_neighbor_in_grid(
                    fed.bodies[0],
                    crate::geometry::direction_between(fed.p, fed.bodies[0]),
                );
            } else {
                crate::geometry::lemma_neighbor_in_grid(
                    fed.bodies[fed.bodies.len() - 1],
                    crate::geometry::direction_between(
                        fed.bodies[fed.bodies.len() - 2],
                        fed.bodies[fed.bodies.len() - 1],
                    ),
                );
            }
            assert(in_grid(grow_pos_spec(fed)));
            assert forall|i: int| 0 <= i < gp.bodies.len() implies in_grid(
                #[trigger] gp.bodies[i],
            ) by {
                if i < gp.bodies.len() - 1 {
                    assert(gp.bodies[i] == g.player.bodies[i]);
                }
            }
            assert(player_wf(gp));
        }
    }
}

/// The collision passes keep the player and the pools' cells, count at
/// most one eat, and leave no running game with negative energy.
proof fn lemma_stage_passes(g: GameV)
    requires
        step_wf(g),
        g.frame + 61 <= i32::MAX,
    ensures
        stage_passes(g).frame == g.frame,
        stage_passes(g).score == g.score,
        player_wf(stage_passes(g).player),
        stage_passes(g).foods.len() == g.foods.len(),
        forall|i: int| 0 <= i < g.foods.len() ==> (#[trigger] stage_passes(g).foods[i]).p
            == g.foods[i].p,
        stage_passes(g).poos.len() == g.poos.len(),
        forall|i: int| 0 <= i < g.poos.len() ==> (#[trigger] stage_passes(g).poos[i]).p
            == g.poos[i].p,
        stage_passes(g).ate_counts.len() == g.ate_counts.len(),
        forall|j: int| 0 <= j < g.ate_counts.len() ==> g.ate_counts[j]
            <= #[trigger] stage_passes(g).ate_counts[j] <= g.ate_counts[j] + 1,
        g.ate_count <= stage_passes(g).ate_count <= g.ate_count + 1,
        !stage_passes(g).is_over ==> stage_passes(g).player.energy >= 0,
        stage_passes(g).player.energy <= g.player.energy || (stage_passes(g).ate_count
            == g.ate_count + 1 && 0 <= stage_passes(g).player.energy <= ENERGY_MAX),
{
    lemma_eat_effects(g);
    let g5 = eat_spec(g);
    lemma_poo_pass_effects(g5, g5.poos.len() as int);
    let g6 = poo_pass_spec(g5, g5.poos.len() as int);
    lemma_self_crash_effects(g6, g6.player.bodies.len() as int);
}

/// One frame of a running game preserves the invariant, advances the frame
/// counter by one, and raises the energy only on a non-neutral eat, which
/// leaves it clamped into `[0, ENERGY_MAX]`.
pub proof fn lemma_update_preserves(g: GameV, c: Command, slot: int, roll: int)
    requires
        game_wf(g),
        !g.is_over,
        g.frame + 61 <= i32::MAX,
        0 <= slot < N_CELLS,
        0 <= roll < 100,
    ensures
        game_wf(update_spec(g, c, slot, roll)),
        update_spec(g, c, slot, roll).frame == g.frame + 1,
        update_spec(g, c, slot, roll).player.energy <= g.player.energy || (update_spec(
            g,
            c,
            slot,
            roll,
        ).ate_count == g.ate_count + 1 && 0 <= update_spec(g, c, slot, roll).player.energy
            <= ENERGY_MAX),
{
    lemma_stage_command_move(g, c);
    let g2 = stage_command_move(g, c);
    lemma_stage_spawns(g2, slot, roll);
    let g4 = stage_spawns(g2, slot, roll);
    lemma_stage_passes(g4);
    let g8 = stage_passes(g4);
    let fin = advance_spec(g8);
    assert(forall|i: int| 0 <= i < N_CELLS ==> (#[trigger] fin.foods[i]).p == cell_of(i));
    assert(forall|i: int| 0 <= i < N_CELLS ==> in_grid((#[trigger] fin.poos[i]).p));
    assert(forall|j: int| 0 <= j < 4 ==> 0 <= #[trigger] fin.ate_counts[j] <= fin.frame);
    assert(step_wf(fin));
    assert(game_wf(fin));
}

/// Clamps `value` into `[lo, hi]`.
fn clamp(lo: i32, value: i32, hi: i32) -> (r: i32)
    requires
        lo <= hi,
    ensures
        r as int == clamp_spec(lo as int, value as int, hi as int),
{
    if value < lo {
        return lo;
    }
    if value > hi {
        return hi;
    }
    value
}

impl Game {
    /// How many food slots are active.
    fn foods_count(&self) -> (count: usize)
        ensures
            count as int == foods_count_spec(self@.foods, self@.foods.len() as int),
            count <= self@.foods.len(),
    {
        let n = self.foods.len();
        let mut count: usize = 0;
        let mut i: usize = 0;
        while i < n
            invariant
                n == self@.foods.len(),
                i <= n,
                count <= i,
                count as int == foods_count_spec(self@.foods, i as int),
            decreases n - i,
        {
            if self.foods[i].is_exist {
                count = count + 1;
            }
            i = i + 1;
        }
        count
    }

    /// One food spawn attempt: a uniformly drawn slot and, when it was
    /// inactive, a weighted color draw for it.
    fn spawn_food(&mut self)
        requires
            old(self)@.foods.len() == N_CELLS,
        ensures
            exists|slot: int, roll: int|
                #![auto]
                0 <= slot < N_CELLS && 0 <= roll < 100 && final(self)@ == spawn_food_spec(
                    old(self)@,
                    slot,
                    roll,
                ),
            final(self)@ == (GameV { foods: final(self)@.foods, ..old(self)@ }),
            final(self)@.foods.len() == N_CELLS,
            forall|i: int| 0 <= i < N_CELLS ==> (#[trigger] final(self)@.foods[i]).p
                == old(self)@.foods[i].p,
    {
        let n = self.foods.len();
        let i = rand_below(&mut self.rng, n);
        if self.foods[i].is_exist {
            proof {
                assert(self@ == spawn_food_spec(old(self)@, i as int, 0int));
            }
            return;
        }
        let f = self.foods[i];
        self.foods[i] = Food { color: f.color, p: f.p, is_exist: true };
        let r = rand_below(&mut self.rng, 100);
        let f2 = self.foods[i];
        self.foods[i] = Food { color: color_for_roll(r), p: f2.p, is_exist: f2.is_exist };
        proof {
            assert(self@.foods =~= old(self)@.foods.update(
                i as int,
                Food {
                    color: color_for_roll_spec(r as int),
                    p: old(self)@.foods[i as int].p,
                    is_exist: true,
                },
            ));
            assert(self@ =~= spawn_food_spec(old(self)@, i as int, r as int));
        }
    }

    /// Spawns a hazard at the player's tail end, into the first inactive
    /// slot, if any is left.
    fn spawn_poo(&mut self)
        requires
            old(self)@.poos.len() == N_CELLS,
            player_wf(old(self)@.player),
        ensures
            final(self)@ == spawn_poo_spec(old(self)@),
            final(self)@ == (GameV { poos: final(self)@.poos, ..old(self)@ }),
            final(self)@.poos.len() == N_CELLS,
            forall|i: int| 0 <= i < N_CELLS ==> (#[trigger] final(self)@.poos[i]).p
                == old(self)@.poos[i].p || final(self)@.poos[i].p == poo_pos_spec(
                old(self)@.player,
            ),
    {
        let ghost g0 = self@;
        let pos = if self.player.bodies.len() > 0 {
            self.player.bodies[self.player.bodies.len() - 1]
        } else {
            self.player.p.neighbor(self.player.direction.opposite())
        };
        proof {
            assert(pos == poo_pos_spec(g0.player));
        }
        let n = self.poos.len();
        let mut i: usize = 0;
        while i < n && self.poos[i].is_exist
            invariant
                self@ == g0,
                n == g0.poos.len(),
                i <= n,
                forall|j: int| 0 <= j < i ==> (#[trigger] g0.poos[j]).is_exist,
            decreases n - i,
        {
            i = i + 1;
        }
        proof {
            lemma_first_free_skip(g0.poos, 0, i as int);
        }
        if i < n {
            self.poos[i] = Poo { p: pos, is_exist: true };
            proof {
                assert(first_free_poo(g0.poos, 0) == i);
                assert(self@ =~= spawn_poo_spec(g0));
            }
        } else {
            proof {
                assert(first_free_poo(g0.poos, 0) == n);
                assert(self@ =~= spawn_poo_spec(g0));
            }
        }
    }

    /// Consumption of the food under the player's head, if any is active.
    fn eat_foods(&mut self)
        requires
            step_wf(old(self)@),
            old(self)@.frame + 61 <= i32::MAX,
            forall|j: int| 0 <= j < 4 ==> 0 <= #[trigger] old(self)@.ate_counts[j]
                <= old(self)@.frame,
            0 <= old(self)@.ate_count <= old(self)@.frame,
        ensures
            final(self)@ == eat_spec(old(self)@),
            player_wf(final(self)@.player),
            final(self)@.is_over == old(self)@.is_over,
            final(self)@.frame == old(self)@.frame,
            final(self)@.score == old(self)@.score,
            final(self)@.poos == old(self)@.poos,
            final(self)@.foods.len() == N_CELLS,
            forall|i: int| 0 <= i < N_CELLS ==> (#[trigger] final(self)@.foods[i]).p
                == old(self)@.foods[i].p,
            final(self)@.ate_counts.len() == old(self)@.ate_counts.len(),
            forall|j: int| 0 <= j < old(self)@.ate_counts.len()
                ==> old(self)@.ate_counts[j] <= #[trigger] final(self)@.ate_counts[j]
                <= old(self)@.ate_counts[j] + 1,
            old(self)@.ate_count <= final(self)@.ate_count <= old(self)@.ate_count + 1,
            final(self)@.player.energy <= old(self)@.player.energy || (final(self)@.ate_count
                == old(self)@.ate_count + 1 && 0 <= final(self)@.player.energy <= ENERGY_MAX),
    {
        let head = self.player.p;
        proof {
            lemma_cell_idx(head);
        }
        let k = (head.y * CELLS_X_LEN + head.x) as usize;
        if self.foods[k].is_exist {
            let food = self.foods[k];
            self.foods[k] = Food { color: food.color, p: food.p, is_exist: false };
            let ci = food.color.index();
            let cur = self.ate_counts[ci];
            self.ate_counts[ci] = cur + 1;
            if food.color == FoodColor::White {
                self.player.shrink();
                self.requested_sounds.push(Sound::Shrink);
            } else {
                let e = food.color.energy();
                self.player.energy = clamp(0, self.player.energy + e, ENERGY_MAX);
                self.player.grow();
                self.ate_count = self.ate_count + 1;
                if self.ate_count % 3 == 0 {
                    self.poo_spawn_frame = self.frame + 60;
                }
                self.requested_sounds.push(Sound::Eat);
            }
            proof {
                assert(self@ =~~= eat_spec(old(self)@));
            }
        } else {
            proof {
                assert(self@ =~~= eat_spec(old(self)@));
            }
        }
    }

    /// The hazard pass: every active hazard destroys the food on its cell,
    /// and one under the player's head ends the game.
    fn clear_poos(&mut self)
        requires
            old(self)@.poos.len() == N_CELLS,
            old(self)@.foods.len() == N_CELLS,
            forall|i: int| 0 <= i < N_CELLS ==> in_grid((#[trigger] old(self)@.poos[i]).p),
        ensures
            final(self)@ == poo_pass_spec(old(self)@, N_CELLS as int),
    {
        let ghost g0 = self@;
        let mut i: usize = 0;
        while i < N_CELLS
            invariant
                i <= N_CELLS,
                self@ == poo_pass_spec(g0, i as int),
                self@.poos.len() == N_CELLS,
                self@.foods.len() == N_CELLS,
                forall|j: int| 0 <= j < N_CELLS ==> in_grid((#[trigger] self@.poos[j]).p),
            decreases N_CELLS - i,
        {
            let ghost prev = self@;
            let poo = self.poos[i];
            if poo.is_exist {
                if poo.p == self.player.p {
                    self.poos[i] = Poo { p: poo.p, is_exist: false };
                    self.is_over = true;
                    self.requested_sounds.push(Sound::Crash);
                }
                proof {
                    lemma_cell_idx(poo.p);
                }
                let k = (poo.p.y * CELLS_X_LEN + poo.p.x) as usize;
                if self.foods[k].is_exist {
                    let f = self.foods[k];
                    self.foods[k] = Food { color: f.color, p: f.p, is_exist: false };
                }
            }
            proof {
                assert(self@ =~~= poo_step(prev, i as int));
            }
            i = i + 1;
        }
    }

    /// Advances the simulation by one frame. On a finished game this is a
    /// no-op; otherwise the state moves to `update_spec` of the old state,
    /// for some food spawn draws `slot` and `roll` (pinned to zero when the
    /// spawn gate does not fire, so that the frame is then a function of the
    /// old state and the command alone). Energy never rises except on a
    /// non-neutral eat, which clamps it into `[0, ENERGY_MAX]`.
    #[verifier::rlimit(100)]
    pub fn update(&mut self, command: Command)
        requires
            game_wf(old(self)@),
            old(self)@.frame + 61 <= i32::MAX,
        ensures
            game_wf(final(self)@),
            old(self)@.is_over ==> final(self)@ == old(self)@,
            !old(self)@.is_over ==> final(self)@.frame == old(self)@.frame + 1,
            !old(self)@.is_over && !spawn_gate(old(self)@) ==> final(self)@ == update_spec(
                old(self)@,
                command,
                0,
                0,
            ),
            !old(self)@.is_over && spawn_gate(old(self)@) ==> exists|slot: int, roll: int|
                #![auto]
                0 <= slot < N_CELLS && 0 <= roll < 100 && final(self)@ == update_spec(
                    old(self)@,
                    command,
                    slot,
                    roll,
                ),
            final(self)@.player.energy <= old(self)@.player.energy || (final(self)@.ate_count
                == old(self)@.ate_count + 1 && 0 <= final(self)@.player.energy <= ENERGY_MAX),
    {
        let ghost g0 = self@;
        if self.is_over {
            return;
        }

        match command {
            Command::Idle => {},
            Command::Left => {
                self.player.set_direction(Direction::Left);
                self.requested_sounds.push(Sound::ToneE4);
            },
            Command::Right => {
                self.player.set_direction(Direction::Right);
                self.requested_sounds.push(Sound::ToneD4);
            },
            Command::Down => {
                self.player.set_direction(Direction::Down);
                self.requested_sounds.push(Sound::ToneA4);
            },
            Command::Up => {
                self.player.set_direction(Direction::Up);
                self.requested_sounds.push(Sound::ToneG4);
            },
        }
        if self.frame % 8 == 7 {
            self.player.do_move();
        }
        let ghost g2 = stage_command_move(g0, command);
        proof {
            assert(self@ =~~= g2);
            lemma_stage_command_move(g0, command);
        }

        let do_spawn = self.frame != 0 && self.frame % 30 == 0 && self.foods_count() < 5;
        proof {
            assert(do_spawn == spawn_gate(g2));
        }
        let ghost mut slot: int = 0int;
        let ghost mut roll: int = 0int;
        if do_spawn {
            self.spawn_food();
            proof {
                let (s, r) = choose|s: int, r: int|
                    #![auto]
                    0 <= s < N_CELLS && 0 <= r < 100 && self@ == spawn_food_spec(g2, s, r);
                slot = s;
                roll = r;
            }
        }
        let ghost g3 = if spawn_gate(g2) {
            spawn_food_spec(g2, slot, roll)
        } else {
            g2
        };
        proof {
            assert(self@ == g3);
            assert(0 <= slot < N_CELLS && 0 <= roll < 100);
        }

        if self.frame == self.poo_spawn_frame {
            self.spawn_poo();
        }
        let ghost g4 = stage_spawns(g2, slot, roll);
        proof {
            assert(self@ == g4);
            lemma_stage_spawns(g2, slot, roll);
            assert(g4.frame == g0.frame && g4.ate_count == g0.ate_count);
        }

        self.eat_foods();
        let ghost g5 = eat_spec(g4);
        proof {
            assert(self@ == g5);
        }

        self.clear_poos();
        let ghost g6 = poo_pass_spec(g5, N_CELLS as int);
        proof {
            assert(self@ == g6);
            assert(g5.poos.len() == N_CELLS);
        }

        self.check_self_crash();
        let ghost g7 = self_crash_spec(g6, g6.player.bodies.len() as int);
        proof {
            assert(self@ == g7);
        }

        if self.player.energy < 0 {
            self.is_over = true;
            self.requested_sounds.push(Sound::Crash);
        }
        let ghost g8 = stage_passes(g4);
        proof {
            assert(self@ =~~= energy_check_spec(g7));
            assert(g8 == energy_check_spec(g7));
            lemma_stage_passes(g4);
            assert(g8.frame == g0.frame);
        }

        self.frame = self.frame + 1;
        self.score = self.frame / 30;
        proof {
            assert(self@ =~~= advance_spec(g8));
            assert(self@ =~~= update_spec(g0, command, slot, roll));
            lemma_update_preserves(g0, command, slot, roll);
            assert(spawn_gate(g2) == spawn_gate(g0));
        }
    }

    /// The self-collision pass: a trailing segment under the head ends the
    /// game.
    fn check_self_crash(&mut self)
        ensures
            final(self)@ == self_crash_spec(old(self)@, old(self)@.player.bodies.len() as int),
    {
        let ghost g0 = self@;
        let n = self.player.bodies.len();
        let mut i: usize = 0;
        while i < n
            invariant
                i <= n,
                n == g0.player.bodies.len(),
                self@ == self_crash_spec(g0, i as int),
                self@.player == g0.player,
            decreases n - i,
        {
            let ghost prev = self@;
            if self.player.bodies[i] == self.player.p {
                self.is_over = true;
                self.requested_sounds.push(Sound::Crash);
            }
            proof {
                assert(self@ =~~= body_hit_step(prev, i as int));
            }
            i = i + 1;
        }
    }
}

} // verus!
