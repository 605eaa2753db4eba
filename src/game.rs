//! The game engine: a tick state machine over the snake, the food and an
//! optional power-up, with difficulty-based pacing.

use crate::random::random_in_range;
use crate::snake::{heading_after, moved_body, spawn_body, Snake};
use crate::utils::{Difficulty, Direction, Position, PowerUp, PowerUpType};
use vstd::prelude::*;

verus! {

/// Score awarded for eating the food.
pub const FOOD_POINTS: u32 = 10;

/// Score awarded by the ExtraPoints power-up.
pub const EXTRA_POINTS: u32 = 50;

/// Score needed for each step of the pace progression.
pub const POINTS_PER_STEP: u32 = 50;

/// The shortest tick interval, in milliseconds.
pub const MIN_TICK_MILLIS: u64 = 20;

/// A power-up effect never shrinks the snake below this length.
pub const MIN_SNAKE_LEN: usize = 3;

/// Base tick intervals in milliseconds, (horizontal, vertical).
pub open spec fn base_tick_millis(d: Difficulty) -> (int, int) {
    match d {
        Difficulty::Easy => (150, 300),
        Difficulty::Medium => (100, 200),
        Difficulty::Hard => (60, 120),
        Difficulty::Extreme => (35, 70),
    }
}

/// Ticks that a SpeedBoost or SlowDown effect lasts.
pub open spec fn effect_duration(d: Difficulty) -> int {
    match d {
        Difficulty::Easy => 120,
        Difficulty::Medium => 100,
        Difficulty::Hard => 85,
        Difficulty::Extreme => 70,
    }
}

/// Chance, per mille, that a power-up is spawned when one is asked for.
pub open spec fn refresh_spawn_per_mille(d: Difficulty) -> int {
    match d {
        Difficulty::Easy => 350,
        Difficulty::Medium => 300,
        Difficulty::Hard => 240,
        Difficulty::Extreme => 160,
    }
}

/// Chance, per mille, that a tick without a power-up asks for one.
pub open spec fn tick_spawn_per_mille(d: Difficulty) -> int {
    match d {
        Difficulty::Easy => 25,
        Difficulty::Medium => 20,
        Difficulty::Hard => 15,
        Difficulty::Extreme => 10,
    }
}

/// Percent of pace gained per progression step.
pub open spec fn step_percent(d: Difficulty) -> int {
    match d {
        Difficulty::Easy => 2,
        Difficulty::Medium => 3,
        Difficulty::Hard => 4,
        Difficulty::Extreme => 5,
    }
}

/// The most progression steps that count.
pub open spec fn max_steps(d: Difficulty) -> int {
    match d {
        Difficulty::Easy => 12,
        Difficulty::Medium => 15,
        Difficulty::Hard => 12,
        Difficulty::Extreme => 13,
    }
}

/// Progression steps reached at `score`.
pub open spec fn progression_steps(d: Difficulty, score: int) -> int {
    let steps = score / POINTS_PER_STEP as int;
    if steps < max_steps(d) {
        steps
    } else {
        max_steps(d)
    }
}

/// The pace multiplier, in percent, that the score has earned.
pub open spec fn progression_percent(d: Difficulty, score: int) -> int {
    let reduction = progression_steps(d, score) * step_percent(d);
    if reduction < 100 {
        100 - reduction
    } else {
        0
    }
}

/// The pace multiplier, in percent, of the active speed effect.
pub open spec fn effect_percent(timer: Option<u32>, effect: Option<PowerUpType>) -> int {
    match (timer, effect) {
        (Some(_), Some(PowerUpType::SpeedBoost)) => 70,
        (Some(_), Some(PowerUpType::SlowDown)) => 150,
        _ => 100,
    }
}

/// The tick interval, in milliseconds, for a base interval and the two
/// multipliers, never under the minimum.
pub open spec fn effective_millis(base: int, progression: int, effect: int) -> int {
    let combined = progression * effect / 100;
    let scaled = base * combined / 100;
    if scaled < MIN_TICK_MILLIS as int {
        MIN_TICK_MILLIS as int
    } else {
        scaled
    }
}

/// The timer after one countdown step: it is removed on reaching zero.
pub open spec fn countdown_timer(timer: Option<u32>) -> Option<u32> {
    match timer {
        Some(t) => if t <= 1 {
            None
        } else {
            Some((t - 1) as u32)
        },
        None => None,
    }
}

/// The active effect after one countdown step: cleared with the timer.
pub open spec fn countdown_effect(timer: Option<u32>, effect: Option<PowerUpType>) -> Option<
    PowerUpType,
> {
    match timer {
        Some(t) => if t <= 1 {
            None
        } else {
            effect
        },
        None => effect,
    }
}

/// The body after the Grow effect: the last segment is repeated twice.
pub open spec fn grown_body(body: Seq<Position>) -> Seq<Position> {
    if body.len() > 0 {
        body.push(body.last()).push(body.last())
    } else {
        body
    }
}

/// The body after the Shrink effect: up to two tail segments go, the
/// length staying at least the minimum.
pub open spec fn shrunk_body(body: Seq<Position>) -> Seq<Position> {
    if body.len() >= MIN_SNAKE_LEN + 2 {
        body.subrange(0, body.len() - 2)
    } else if body.len() > MIN_SNAKE_LEN {
        body.subrange(0, MIN_SNAKE_LEN as int)
    } else {
        body
    }
}

/// The body after collecting a power-up of kind `kind`.
pub open spec fn body_after_effect(body: Seq<Position>, kind: PowerUpType) -> Seq<Position> {
    match kind {
        PowerUpType::Grow => grown_body(body),
        PowerUpType::Shrink => shrunk_body(body),
        _ => body,
    }
}

pub open spec fn is_speed_effect(kind: PowerUpType) -> bool {
    kind == PowerUpType::SpeedBoost || kind == PowerUpType::SlowDown
}

/// The power-up kind at `index` in spawn order.
pub open spec fn power_up_kind_at(index: int) -> PowerUpType {
    if index == 0 {
        PowerUpType::SpeedBoost
    } else if index == 1 {
        PowerUpType::SlowDown
    } else if index == 2 {
        PowerUpType::ExtraPoints
    } else if index == 3 {
        PowerUpType::Grow
    } else {
        PowerUpType::Shrink
    }
}

pub open spec fn max_u32(a: u32, b: u32) -> u32 {
    if a >= b {
        a
    } else {
        b
    }
}

pub open spec fn in_interior(p: Position, width: u16, height: u16) -> bool {
    2 <= p.x < width && 2 <= p.y < height
}

/// `p` is an interior cell free for food, given the body and the power-up.
pub open spec fn food_free_for(
    body: Seq<Position>,
    power_up: Option<PowerUp>,
    width: u16,
    height: u16,
    p: Position,
) -> bool {
    &&& in_interior(p, width, height)
    &&& !body.contains(p)
    &&& !(power_up matches Some(pu) && pu.position == p)
}

/// `p` is an interior cell free for a power-up, given the body and the food.
pub open spec fn power_up_free_for(
    body: Seq<Position>,
    food: Position,
    width: u16,
    height: u16,
    p: Position,
) -> bool {
    &&& in_interior(p, width, height)
    &&& !body.contains(p)
    &&& p != food
}

/// The kind of a power-up that may be absent (any kind when absent).
pub open spec fn kind_of(power_up: Option<PowerUp>) -> PowerUpType {
    match power_up {
        Some(pu) => pu.power_up_type,
        None => PowerUpType::SpeedBoost,
    }
}

/// `power_up` is absent, or a fresh active power-up on a cell free for it.
pub open spec fn fresh_power_up(
    power_up: Option<PowerUp>,
    body: Seq<Position>,
    food: Position,
    width: u16,
    height: u16,
) -> bool {
    match power_up {
        Some(pu) => pu.active && power_up_free_for(body, food, width, height, pu.position),
        None => true,
    }
}

/// What one tick does to a game `g`, giving `n`.
pub open spec fn tick_post(g: Game, n: Game) -> bool {
    if g.game_over || g.paused {
        n == g
    } else {
        let nh = g.snake.next_head_spec(g.width, g.height);
        let grow = nh == g.food;
        let body1 = moved_body(g.snake.body@, nh, grow);
        let score1 = if grow {
            g.score.saturating_add(FOOD_POINTS)
        } else {
            g.score
        };
        let high1 = if grow {
            max_u32(g.high_score, score1)
        } else {
            g.high_score
        };
        let collected = g.power_up matches Some(pu) && pu.position == nh && pu.active;
        let kind = kind_of(g.power_up);
        let extra = collected && kind == PowerUpType::ExtraPoints;
        let speed = collected && is_speed_effect(kind);
        let timer1 = if speed {
            Some(effect_duration(g.difficulty) as u32)
        } else {
            g.power_up_timer
        };
        let effect1 = if speed {
            Some(kind)
        } else {
            g.active_speed_effect
        };
        &&& n.game_over == body1.subrange(1, body1.len() as int).contains(nh)
        &&& n.snake.direction == g.snake.direction
        &&& n.snake.body@ == if collected {
            body_after_effect(body1, kind)
        } else {
            body1
        }
        &&& n.score == if extra {
            score1.saturating_add(EXTRA_POINTS)
        } else {
            score1
        }
        &&& n.high_score == if extra {
            max_u32(high1, n.score)
        } else {
            high1
        }
        &&& n.power_up_timer == countdown_timer(timer1)
        &&& n.active_speed_effect == countdown_effect(timer1, effect1)
        &&& if grow && exists|p: Position| #[trigger]
            food_free_for(body1, g.power_up, g.width, g.height, p) {
            food_free_for(body1, g.power_up, g.width, g.height, n.food)
        } else {
            n.food == g.food
        }
        &&& if g.power_up is Some && !collected {
            n.power_up == g.power_up
        } else {
            fresh_power_up(n.power_up, n.snake.body@, n.food, n.width, n.height)
        }
        &&& n.width == g.width
        &&& n.height == g.height
        &&& n.difficulty == g.difficulty
        &&& n.paused == g.paused
        &&& n.muted == g.muted
        &&& forall|p: Position|
            #![trigger g.is_dirty(p)]
            #![trigger n.is_dirty(p)]
            #![trigger g.snake.body@.contains(p)]
            #![trigger n.snake.body@.contains(p)]
            g.is_dirty(p) || g.snake.body@.contains(p) || n.snake.body@.contains(p)
                ==> n.is_dirty(p)
    }
}

pub struct Game {
    pub snake: Snake,
    pub food: Position,
    pub score: u32,
    pub high_score: u32,
    pub game_over: bool,
    pub difficulty: Difficulty,
    pub paused: bool,
    pub power_up: Option<PowerUp>,
    /// Ticks left of the active speed effect.
    pub power_up_timer: Option<u32>,
    /// The power-up that drives the current pace multiplier.
    pub active_speed_effect: Option<PowerUpType>,
    /// Cells that need to be redrawn; the renderer clears it after drawing.
    pub dirty_positions: Vec<Position>,
    pub width: u16,
    pub height: u16,
    pub muted: bool,
    /// Feedback sounds asked for and not yet played.
    pub pending_sounds: u32,
}

impl Game {
    /// The snake never has fewer than three segments, and no cell is
    /// listed twice among the cells to redraw.
    pub open spec fn wf(&self) -> bool {
        &&& self.snake.body@.len() >= MIN_SNAKE_LEN
        &&& self.dirty_unique()
    }

    /// The cells to redraw form a set: none is listed twice.
    pub open spec fn dirty_unique(&self) -> bool {
        self.dirty_positions@.no_duplicates()
    }

    pub open spec fn is_dirty(&self, p: Position) -> bool {
        self.dirty_positions@.contains(p)
    }

    /// Every cell dirty in `self` is still dirty in `other`.
    pub open spec fn keeps_dirty(&self, other: &Game) -> bool {
        forall|p: Position| #[trigger]
            self.dirty_positions@.contains(p) ==> other.dirty_positions@.contains(p)
    }

    /// `other` equals `self` but for the dirty cells and pending sounds.
    pub open spec fn same_state(&self, other: &Game) -> bool {
        &&& other.snake.body@ == self.snake.body@
        &&& other.snake.direction == self.snake.direction
        &&& other.food == self.food
        &&& other.score == self.score
        &&& other.high_score == self.high_score
        &&& other.game_over == self.game_over
        &&& other.difficulty == self.difficulty
        &&& other.paused == self.paused
        &&& other.power_up == self.power_up
        &&& other.power_up_timer == self.power_up_timer
        &&& other.active_speed_effect == self.active_speed_effect
        &&& other.width == self.width
        &&& other.height == self.height
        &&& other.muted == self.muted
    }

    /// Number of interior cells, inside the one-cell border.
    pub open spec fn interior_count(&self) -> int {
        self.width.saturating_sub(2) * self.height.saturating_sub(2)
    }

    /// `p` is an interior cell free for food: off the snake and off the power-up.
    pub open spec fn food_cell_free(&self, p: Position) -> bool {
        food_free_for(self.snake.body@, self.power_up, self.width, self.height, p)
    }

    /// `p` is an interior cell free for a power-up: off the snake and off the food.
    pub open spec fn power_up_cell_free(&self, p: Position) -> bool {
        power_up_free_for(self.snake.body@, self.food, self.width, self.height, p)
    }

    /// The board, the tier and the pause and mute flags are those of `other`.
    pub open spec fn same_frame(&self, other: &Game) -> bool {
        &&& other.width == self.width
        &&& other.height == self.height
        &&& other.difficulty == self.difficulty
        &&& other.paused == self.paused
        &&& other.muted == self.muted
    }

    /// The head stands on an active power-up.
    pub open spec fn collects(&self) -> bool {
        self.power_up matches Some(pu) && pu.position == self.snake.head() && pu.active
    }

    /// `after` is `self` with the effect of a power-up of kind `kind` applied.
    pub open spec fn effect_applied(&self, after: &Game, kind: PowerUpType) -> bool {
        &&& after.snake.body@ == body_after_effect(self.snake.body@, kind)
        &&& after.score == if kind == PowerUpType::ExtraPoints {
            self.score.saturating_add(EXTRA_POINTS)
        } else {
            self.score
        }
        &&& after.high_score == if kind == PowerUpType::ExtraPoints {
            max_u32(self.high_score, after.score)
        } else {
            self.high_score
        }
        &&& after.power_up_timer == if is_speed_effect(kind) {
            Some(effect_duration(self.difficulty) as u32)
        } else {
            self.power_up_timer
        }
        &&& after.active_speed_effect == if is_speed_effect(kind) {
            Some(kind)
        } else {
            self.active_speed_effect
        }
    }

    pub open spec fn has_food_cell(&self) -> bool {
        exists|p: Position| #[trigger] self.food_cell_free(p)
    }

    pub open spec fn has_power_up_cell(&self) -> bool {
        exists|p: Position| #[trigger] self.power_up_cell_free(p)
    }

    pub fn toggle_pause(&mut self)
        ensures
            final(self).paused == if old(self).game_over {
                old(self).paused
            } else {
                !old(self).paused
            },
            *final(self) == (Game { paused: final(self).paused, ..*old(self) }),
    {
        if !self.game_over {
            self.paused = !self.paused;
        }
    }

    pub fn is_paused(&self) -> (r: bool)
        ensures
            r == self.paused,
    {
        self.paused
    }

    pub fn toggle_mute(&mut self)
        ensures
            final(self).muted == !old(self).muted,
            *final(self) == (Game { muted: final(self).muted, ..*old(self) }),
    {
        self.muted = !self.muted;
    }

    /// Base tick intervals in milliseconds, (horizontal, vertical).
    pub fn get_tick_rates(&self) -> (r: (u64, u64))
        ensures
            (r.0 as int, r.1 as int) == base_tick_millis(self.difficulty),
    {
        match self.difficulty {
            Difficulty::Easy => (150, 300),
            Difficulty::Medium => (100, 200),
            Difficulty::Hard => (60, 120),
            Difficulty::Extreme => (35, 70),
        }
    }

    pub fn speed_effect_duration_ticks(&self) -> (r: u32)
        ensures
            r == effect_duration(self.difficulty),
    {
        match self.difficulty {
            Difficulty::Easy => 120,
            Difficulty::Medium => 100,
            Difficulty::Hard => 85,
            Difficulty::Extreme => 70,
        }
    }

    /// Chance, per mille, that an asked-for power-up is spawned.
    pub fn power_up_refresh_spawn_chance(&self) -> (r: u32)
        ensures
            r == refresh_spawn_per_mille(self.difficulty),
    {
        match self.difficulty {
            Difficulty::Easy => 350,
            Difficulty::Medium => 300,
            Difficulty::Hard => 240,
            Difficulty::Extreme => 160,
        }
    }

    /// Chance, per mille, that a tick without a power-up asks for one.
    pub fn power_up_tick_spawn_chance(&self) -> (r: u32)
        ensures
            r == tick_spawn_per_mille(self.difficulty),
    {
        match self.difficulty {
            Difficulty::Easy => 25,
            Difficulty::Medium => 20,
            Difficulty::Hard => 15,
            Difficulty::Extreme => 10,
        }
    }

    pub fn progression_step_percent(&self) -> (r: u64)
        ensures
            r == step_percent(self.difficulty),
    {
        match self.difficulty {
            Difficulty::Easy => 2,
            Difficulty::Medium => 3,
            Difficulty::Hard => 4,
            Difficulty::Extreme => 5,
        }
    }

    pub fn progression_max_steps(&self) -> (r: u64)
        ensures
            r == max_steps(self.difficulty),
    {
        match self.difficulty {
            Difficulty::Easy => 12,
            Difficulty::Medium => 15,
            Difficulty::Hard => 12,
            Difficulty::Extreme => 13,
        }
    }

    /// The pace multiplier of the active speed effect: 70 during a
    /// SpeedBoost, 150 during a SlowDown, 100 otherwise.
    pub fn speed_multiplier_percent(&self) -> (r: u64)
        ensures
            r == effect_percent(self.power_up_timer, self.active_speed_effect),
    {
        match (self.power_up_timer, self.active_speed_effect) {
            (Some(_), Some(PowerUpType::SpeedBoost)) => 70,
            (Some(_), Some(PowerUpType::SlowDown)) => 150,
            _ => 100,
        }
    }

    /// The pace multiplier that the score has earned:
    /// `100 - min(score / 50, max_steps) * step_percent`.
    pub fn difficulty_speed_multiplier_percent(&self) -> (r: u64)
        ensures
            r == progression_percent(self.difficulty, self.score as int),
    {
        let max_steps = self.progression_max_steps();
        let by_score: u32 = self.score / POINTS_PER_STEP;
        let steps: u64 = if (by_score as u64) < max_steps {
            by_score as u64
        } else {
            max_steps
        };
        let reduction: u64 = steps * self.progression_step_percent();
        100u64.saturating_sub(reduction)
    }

    /// The tick interval in milliseconds: the base interval for the axis of
    /// travel, scaled by the progression and effect multipliers together,
    /// and never under the minimum.
    pub fn effective_tick_millis(&self, vertical: bool) -> (r: u64)
        ensures
            r == effective_millis(
                if vertical {
                    base_tick_millis(self.difficulty).1
                } else {
                    base_tick_millis(self.difficulty).0
                },
                progression_percent(self.difficulty, self.score as int),
                effect_percent(self.power_up_timer, self.active_speed_effect),
            ),
    {
        let (horizontal, vertical_rate) = self.get_tick_rates();
        let base: u64 = if vertical {
            vertical_rate
        } else {
            horizontal
        };
        let progression = self.difficulty_speed_multiplier_percent();
        let effect = self.speed_multiplier_percent();
        assert(progression * effect <= 100 * 150) by (nonlinear_arith)
            requires
                progression <= 100,
                effect <= 150,
        ;
        let combined: u64 = progression * effect / 100;
        assert(base * combined <= 300 * 150) by (nonlinear_arith)
            requires
                base <= 300,
                combined <= 150,
        ;
        let scaled: u64 = base * combined / 100;
        if scaled < MIN_TICK_MILLIS {
            MIN_TICK_MILLIS
        } else {
            scaled
        }
    }

    pub fn speed_effect_ticks_left(&self) -> (r: u32)
        ensures
            r == match self.power_up_timer {
                Some(t) => t,
                None => 0,
            },
    {
        match self.power_up_timer {
            Some(t) => t,
            None => 0,
        }
    }

    /// Raises the high score to the score when the score is above it.
    pub fn update_high_score(&mut self)
        ensures
            final(self).high_score == max_u32(old(self).high_score, old(self).score),
            *final(self) == (Game { high_score: final(self).high_score, ..*old(self) }),
    {
        if self.score > self.high_score {
            self.high_score = self.score;
        }
    }

    /// Adds `pos` to the cells to redraw, once.
    pub fn mark_position_dirty(&mut self, pos: Position)
        ensures
            old(self).dirty_unique() ==> final(self).dirty_unique(),
            old(self).same_state(&*final(self)),
            final(self).pending_sounds == old(self).pending_sounds,
            old(self).keeps_dirty(&*final(self)),
            final(self).is_dirty(pos),
            forall|p: Position| #[trigger]
                final(self).is_dirty(p) <==> (old(self).is_dirty(p) || p == pos),
    {
        let mut i: usize = 0;
        let n = self.dirty_positions.len();
        while i < n
            invariant
                n == self.dirty_positions@.len(),
                0 <= i <= n,
                forall|j: int| 0 <= j < i ==> self.dirty_positions@[j] != pos,
            decreases n - i,
        {
            if self.dirty_positions[i] == pos {
                return;
            }
            i += 1;
        }
        self.dirty_positions.push(pos);
        proof {
            if old(self).dirty_unique() {
                assert forall|a: int, b: int|
                    0 <= a < self.dirty_positions@.len() && 0 <= b < self.dirty_positions@.len()
                        && a != b implies self.dirty_positions@[a] != self.dirty_positions@[b] by {
                    if a < n && b < n {
                        assert(old(self).dirty_positions@[a] != old(self).dirty_positions@[b]);
                    }
                }
            }
            assert forall|p: Position| #[trigger]
                old(self).dirty_positions@.contains(p) implies self.dirty_positions@.contains(
                p,
            ) by {
                let j = choose|j: int|
                    0 <= j < old(self).dirty_positions@.len() && old(self).dirty_positions@[j]
                        == p;
                assert(self.dirty_positions@[j] == p);
            }
            assert forall|p: Position| #[trigger]
                self.is_dirty(p) <==> (old(self).is_dirty(p) || p == pos) by {
                if p == pos {
                    assert(self.dirty_positions@[n as int] == pos);
                }
                if old(self).is_dirty(p) {
                    let j = choose|j: int|
                        0 <= j < old(self).dirty_positions@.len()
                            && old(self).dirty_positions@[j] == p;
                    assert(self.dirty_positions@[j] == p);
                }
                if self.is_dirty(p) && p != pos {
                    let j = choose|j: int|
                        0 <= j < self.dirty_positions@.len() && self.dirty_positions@[j] == p;
                    assert(j < n);
                    assert(old(self).dirty_positions@[j] == p);
                }
            }
        }
    }

    /// Marks every cell of `cells` to redraw.
    pub fn mark_all_dirty(&mut self, cells: &Vec<Position>)
        ensures
            old(self).dirty_unique() ==> final(self).dirty_unique(),
            old(self).same_state(&*final(self)),
            final(self).pending_sounds == old(self).pending_sounds,
            old(self).keeps_dirty(&*final(self)),
            forall|p: Position| cells@.contains(p) ==> #[trigger] final(self).is_dirty(p),
    {
        let mut i: usize = 0;
        while i < cells.len()
            invariant
                0 <= i <= cells@.len(),
                old(self).same_state(&*self),
                self.pending_sounds == old(self).pending_sounds,
                old(self).keeps_dirty(&*self),
                old(self).dirty_unique() ==> self.dirty_unique(),
                forall|j: int| 0 <= j < i ==> #[trigger] self.is_dirty(cells@[j]),
            decreases cells@.len() - i,
        {
            self.mark_position_dirty(cells[i]);
            i += 1;
        }
    }

    /// Asks for a feedback sound, unless muted.
    pub fn play_sound(&mut self)
        ensures
            old(self).same_state(&*final(self)),
            final(self).dirty_positions == old(self).dirty_positions,
            final(self).pending_sounds == if old(self).muted {
                old(self).pending_sounds
            } else {
                old(self).pending_sounds.saturating_add(1)
            },
    {
        if !self.muted {
            self.pending_sounds = self.pending_sounds.saturating_add(1);
        }
    }

    /// Hands out the number of sounds asked for, and forgets them.
    pub fn take_pending_sounds(&mut self) -> (r: u32)
        ensures
            r == old(self).pending_sounds,
            final(self).pending_sounds == 0,
            old(self).same_state(&*final(self)),
            final(self).dirty_positions == old(self).dirty_positions,
    {
        let r = self.pending_sounds;
        self.pending_sounds = 0;
        r
    }

    pub fn update_snake_direction(&mut self, direction: Direction)
        ensures
            final(self).snake.direction == heading_after(old(self).snake.direction, direction),
            *final(self) == (Game {
                snake: Snake { direction: final(self).snake.direction, ..old(self).snake },
                ..*old(self)
            }),
    {
        self.snake.change_direction(direction);
    }
}

impl Game {
    /// Number of interior cells, inside the one-cell border.
    pub fn interior_cells(&self) -> (r: usize)
        ensures
            r == self.interior_count(),
    {
        let w = self.width.saturating_sub(2);
        let h = self.height.saturating_sub(2);
        assert(w as int * h as int <= 65535 * 65535) by (nonlinear_arith)
            requires
                w <= 65535,
                h <= 65535,
        ;
        assert(65535 * 65535 < 0x1_0000_0000);
        (w as u32 * h as u32) as usize
    }

    /// Whether `p` is on the power-up, present or not.
    fn on_power_up(&self, p: Position) -> (r: bool)
        ensures
            r == (self.power_up matches Some(pu) && pu.position == p),
    {
        match self.power_up {
            Some(pu) => pu.position == p,
            None => false,
        }
    }

    /// A free food cell exists exactly when one exists for the body and
    /// power-up taken apart.
    proof fn lemma_food_cell_exists(&self)
        ensures
            self.has_food_cell() == exists|p: Position| #[trigger]
                food_free_for(self.snake.body@, self.power_up, self.width, self.height, p),
    {
        if self.has_food_cell() {
            let p = choose|p: Position| #[trigger] self.food_cell_free(p);
            assert(food_free_for(self.snake.body@, self.power_up, self.width, self.height, p));
        }
        if exists|p: Position| #[trigger]
            food_free_for(self.snake.body@, self.power_up, self.width, self.height, p) {
            let p = choose|p: Position| #[trigger]
                food_free_for(self.snake.body@, self.power_up, self.width, self.height, p);
            assert(self.food_cell_free(p));
        }
    }

    proof fn lemma_no_interior(&self)
        requires
            self.interior_count() == 0,
        ensures
            forall|p: Position| !in_interior(p, self.width, self.height),
    {
        let w = self.width.saturating_sub(2) as int;
        let h = self.height.saturating_sub(2) as int;
        assert(w == 0 || h == 0) by (nonlinear_arith)
            requires
                w * h == 0,
        ;
    }

    proof fn lemma_some_interior(&self)
        requires
            self.interior_count() > 0,
        ensures
            self.width > 2,
            self.height > 2,
    {
        let w = self.width.saturating_sub(2) as int;
        let h = self.height.saturating_sub(2) as int;
        assert(w > 0 && h > 0) by (nonlinear_arith)
            requires
                w * h > 0,
                w >= 0,
                h >= 0,
        ;
    }

    /// `p` is free for a new item: for the food when `for_food`, else for a
    /// power-up.
    pub open spec fn spawn_free(&self, p: Position, for_food: bool) -> bool {
        if for_food {
            self.food_cell_free(p)
        } else {
            self.power_up_cell_free(p)
        }
    }

    /// Random cells tried before the row-by-row search: twice the
    /// interior's size, and at least 16.
    pub open spec fn spawn_attempts(&self) -> int {
        let doubled = if self.interior_count() * 2 <= usize::MAX {
            self.interior_count() * 2
        } else {
            usize::MAX as int
        };
        if doubled >= 16 {
            doubled
        } else {
            16
        }
    }

    /// The first of `candidates`, from index `i` on, that is free.
    pub open spec fn first_free_from(&self, candidates: Seq<Position>, i: nat, for_food: bool) -> Option<
        Position,
    >
        decreases candidates.len() - i,
    {
        if i >= candidates.len() {
            None
        } else if self.spawn_free(candidates[i as int], for_food) {
            Some(candidates[i as int])
        } else {
            self.first_free_from(candidates, i + 1, for_food)
        }
    }

    /// The candidates that count: the first `spawn_attempts` of them.
    pub open spec fn tried(&self, candidates: Seq<Position>) -> Seq<Position> {
        if candidates.len() <= self.spawn_attempts() {
            candidates
        } else {
            candidates.subrange(0, self.spawn_attempts())
        }
    }

    proof fn lemma_first_free_is_free(&self, candidates: Seq<Position>, i: nat, for_food: bool)
        ensures
            self.first_free_from(candidates, i, for_food) matches Some(p) ==> self.spawn_free(
                p,
                for_food,
            ),
        decreases candidates.len() - i,
    {
        if i < candidates.len() && !self.spawn_free(candidates[i as int], for_food) {
            self.lemma_first_free_is_free(candidates, i + 1, for_food);
        }
    }

    fn cell_is_free(&self, p: Position, for_food: bool) -> (r: bool)
        ensures
            r == self.spawn_free(p, for_food),
    {
        let inside = 2 <= p.x && p.x < self.width && 2 <= p.y && p.y < self.height;
        if for_food {
            inside && !self.snake.overlaps_with(p) && !self.on_power_up(p)
        } else {
            inside && !self.snake.overlaps_with(p) && p != self.food
        }
    }

    fn attempts(&self) -> (r: usize)
        ensures
            r == self.spawn_attempts(),
    {
        let total = self.interior_cells();
        let doubled: usize = if total <= usize::MAX / 2 {
            total * 2
        } else {
            usize::MAX
        };
        if doubled >= 16 {
            doubled
        } else {
            16
        }
    }

    /// The two phases of a spawn: the first free cell among the randomly
    /// drawn `candidates` (only the first `spawn_attempts` count), else the
    /// first free interior cell row by row, else `None`.
    pub fn choose_spawn_cell(&self, candidates: &Vec<Position>, for_food: bool) -> (r: Option<
        Position,
    >)
        ensures
            self.first_free_from(self.tried(candidates@), 0, for_food) matches Some(p) ==> r
                == Some(p),
            self.first_free_from(self.tried(candidates@), 0, for_food) is None ==> {
                &&& r is None <==> !(exists|q: Position| #[trigger] self.spawn_free(q, for_food))
                &&& r matches Some(p) ==> {
                    &&& self.spawn_free(p, for_food)
                    &&& forall|q: Position|
                        q.y < p.y || (q.y == p.y && q.x < p.x) ==> !#[trigger] self.spawn_free(
                            q,
                            for_food,
                        )
                }
            },
    {
        let limit = self.attempts();
        let n = if candidates.len() <= limit {
            candidates.len()
        } else {
            limit
        };
        let ghost tried = self.tried(candidates@);
        assert(tried.len() == n);
        let mut i: usize = 0;
        while i < n
            invariant
                0 <= i <= n,
                tried.len() == n,
                tried == self.tried(candidates@),
                forall|k: int| 0 <= k < n ==> tried[k] == candidates@[k],
                self.first_free_from(tried, i as nat, for_food) == self.first_free_from(
                    tried,
                    0,
                    for_food,
                ),
            decreases n - i,
        {
            if self.cell_is_free(candidates[i], for_food) {
                return Some(candidates[i]);
            }
            i += 1;
        }
        assert(self.first_free_from(tried, n as nat, for_food) is None);
        if self.interior_cells() == 0 {
            proof {
                self.lemma_no_interior();
            }
            return None;
        }
        proof {
            self.lemma_some_interior();
        }
        let mut y: u16 = 2;
        while y < self.height
            invariant
                2 <= y <= self.height,
                self.width > 2,
                self.first_free_from(self.tried(candidates@), 0, for_food) is None,
                forall|q: Position| q.y < y ==> !#[trigger] self.spawn_free(q, for_food),
            decreases self.height - y,
        {
            let mut x: u16 = 2;
            while x < self.width
                invariant
                    2 <= x <= self.width,
                    2 <= y < self.height,
                    self.first_free_from(self.tried(candidates@), 0, for_food) is None,
                    forall|q: Position|
                        q.y < y || (q.y == y && q.x < x) ==> !#[trigger] self.spawn_free(
                            q,
                            for_food,
                        ),
                decreases self.width - x,
            {
                let candidate = Position { x, y };
                if self.cell_is_free(candidate, for_food) {
                    return Some(candidate);
                }
                x += 1;
            }
            y += 1;
        }
        None
    }

    /// Draws random interior cells, stopping at the first free one or after
    /// `spawn_attempts` draws, then leaves the choice to `choose_spawn_cell`.
    fn find_spawn_position(&self, rng: &mut rand::rngs::ThreadRng, for_food: bool) -> (r: Option<
        Position,
    >)
        ensures
            r matches Some(p) ==> self.spawn_free(p, for_food),
            r is None <==> !(exists|q: Position| #[trigger] self.spawn_free(q, for_food)),
    {
        let mut candidates: Vec<Position> = Vec::new();
        if self.interior_cells() > 0 {
            proof {
                self.lemma_some_interior();
            }
            let limit = self.attempts();
            while candidates.len() < limit
                invariant
                    self.width > 2,
                    self.height > 2,
                    candidates@.len() <= limit,
                decreases limit - candidates@.len(),
            {
                let x = random_in_range(rng, 2, self.width as u32) as u16;
                let y = random_in_range(rng, 2, self.height as u32) as u16;
                let candidate = Position { x, y };
                candidates.push(candidate);
                if self.cell_is_free(candidate, for_food) {
                    break;
                }
            }
        }
        let r = self.choose_spawn_cell(&candidates, for_food);
        proof {
            self.lemma_first_free_is_free(self.tried(candidates@), 0, for_food);
        }
        r
    }

    /// Looks for a cell for the food, off the snake and off the power-up.
    /// `None` exactly when no interior cell is free.
    pub fn find_food_spawn_position(&self, rng: &mut rand::rngs::ThreadRng) -> (r: Option<
        Position,
    >)
        ensures
            r matches Some(p) ==> self.food_cell_free(p),
            r is None <==> !self.has_food_cell(),
    {
        let r = self.find_spawn_position(rng, true);
        proof {
            if self.has_food_cell() {
                let p = choose|p: Position| #[trigger] self.food_cell_free(p);
                assert(self.spawn_free(p, true));
            }
            if exists|q: Position| #[trigger] self.spawn_free(q, true) {
                let q = choose|q: Position| #[trigger] self.spawn_free(q, true);
                assert(self.food_cell_free(q));
            }
        }
        r
    }

    /// Looks for a cell for a power-up, off the snake and off the food.
    /// `None` exactly when no interior cell is free.
    pub fn find_power_up_spawn_position(&self, rng: &mut rand::rngs::ThreadRng) -> (r: Option<
        Position,
    >)
        ensures
            r matches Some(p) ==> self.power_up_cell_free(p),
            r is None <==> !self.has_power_up_cell(),
    {
        let r = self.find_spawn_position(rng, false);
        proof {
            if self.has_power_up_cell() {
                let p = choose|p: Position| #[trigger] self.power_up_cell_free(p);
                assert(self.spawn_free(p, false));
            }
            if exists|q: Position| #[trigger] self.spawn_free(q, false) {
                let q = choose|q: Position| #[trigger] self.spawn_free(q, false);
                assert(self.power_up_cell_free(q));
            }
        }
        r
    }
}

impl Game {
    /// Moves the food to a free interior cell and marks the old and the new
    /// cell to redraw; changes nothing when no cell is free.
    pub fn generate_food(&mut self)
        ensures
            old(self).dirty_unique() ==> final(self).dirty_unique(),
            old(self).has_food_cell() ==> {
                &&& old(self).same_state(&Game { food: old(self).food, ..*final(self) })
                &&& final(self).pending_sounds == old(self).pending_sounds
                &&& old(self).keeps_dirty(&*final(self))
                &&& old(self).food_cell_free(final(self).food)
                &&& final(self).is_dirty(old(self).food)
                &&& final(self).is_dirty(final(self).food)
            },
            !old(self).has_food_cell() ==> *final(self) == *old(self),
    {
        let mut rng = rand::thread_rng();
        let found = self.find_food_spawn_position(&mut rng);
        match found {
            Some(new_food) => {
                let old_food = self.food;
                self.mark_position_dirty(old_food);
                self.food = new_food;
                assert(old(self).keeps_dirty(&*self));
                self.mark_position_dirty(new_food);
            },
            None => {},
        }
    }

    /// Whether a draw from `0..1000` passes the tier's refresh chance.
    pub open spec fn refresh_passes(&self, draw: u32) -> bool {
        draw < refresh_spawn_per_mille(self.difficulty)
    }

    /// The spawn step once the values are drawn: when there is no power-up,
    /// `draw` passes the tier's refresh chance and a cell was `found`, a
    /// power-up of the kind at `kind_index` is placed there, active, and its
    /// cell is marked to redraw. Otherwise nothing changes.
    pub fn place_power_up(&mut self, draw: u32, found: Option<Position>, kind_index: u32)
        requires
            kind_index < 5,
        ensures
            final(self).power_up == if old(self).power_up is None && old(self).refresh_passes(draw)
                && found is Some {
                Some(
                    PowerUp {
                        position: found->Some_0,
                        power_up_type: power_up_kind_at(kind_index as int),
                        active: true,
                    },
                )
            } else {
                old(self).power_up
            },
            final(self).power_up == old(self).power_up ==> *final(self) == *old(self),
            old(self).same_state(&Game { power_up: old(self).power_up, ..*final(self) }),
            final(self).pending_sounds == old(self).pending_sounds,
            old(self).keeps_dirty(&*final(self)),
            old(self).dirty_unique() ==> final(self).dirty_unique(),
            old(self).power_up is None ==> (final(self).power_up matches Some(q)
                ==> final(self).is_dirty(q.position)),
    {
        if self.power_up.is_some() || draw >= self.power_up_refresh_spawn_chance() {
            return;
        }
        match found {
            Some(position) => {
                let power_up_type = match kind_index {
                    0 => PowerUpType::SpeedBoost,
                    1 => PowerUpType::SlowDown,
                    2 => PowerUpType::ExtraPoints,
                    3 => PowerUpType::Grow,
                    _ => PowerUpType::Shrink,
                };
                self.power_up = Some(PowerUp { position, power_up_type, active: true });
                assert(old(self).keeps_dirty(&*self));
                self.mark_position_dirty(position);
            },
            None => {},
        }
    }

    /// Whether a tick asks for a power-up, given a draw from `0..1000`: only
    /// when there is none and the draw passes the tier's per-tick chance.
    pub fn tick_wants_power_up(&self, draw: u32) -> (r: bool)
        ensures
            r == (self.power_up is None && draw < tick_spawn_per_mille(self.difficulty)),
    {
        self.power_up.is_none() && draw < self.power_up_tick_spawn_chance()
    }

    /// When there is no power-up: with the tier's refresh chance, places one
    /// of a random kind on a free cell and marks that cell to redraw.
    /// Nothing changes when one exists.
    pub fn generate_power_up(&mut self)
        ensures
            old(self).power_up is Some ==> *final(self) == *old(self),
            old(self).power_up is None ==> {
                &&& old(self).same_state(&Game { power_up: old(self).power_up, ..*final(self) })
                &&& final(self).pending_sounds == old(self).pending_sounds
                &&& old(self).keeps_dirty(&*final(self))
                &&& fresh_power_up(
                    final(self).power_up,
                    old(self).snake.body@,
                    old(self).food,
                    old(self).width,
                    old(self).height,
                )
                &&& final(self).power_up matches Some(q) ==> final(self).is_dirty(q.position)
            },
            old(self).dirty_unique() ==> final(self).dirty_unique(),
    {
        if self.power_up.is_some() {
            return;
        }
        let mut rng = rand::thread_rng();
        let draw = random_in_range(&mut rng, 0, 1000);
        let found = if draw < self.power_up_refresh_spawn_chance() {
            self.find_power_up_spawn_position(&mut rng)
        } else {
            None
        };
        let kind_index = if found.is_some() {
            random_in_range(&mut rng, 0, 5)
        } else {
            0
        };
        self.place_power_up(draw, found, kind_index);
    }

    /// Repeats the last segment once.
    fn grow_tail(&mut self)
        ensures
            old(self).dirty_unique() ==> final(self).dirty_unique(),
            final(self).snake.body@ == if old(self).snake.body@.len() > 0 {
                old(self).snake.body@.push(old(self).snake.body@.last())
            } else {
                old(self).snake.body@
            },
            old(self).same_state(
                &Game {
                    snake: Snake { body: old(self).snake.body, ..final(self).snake },
                    ..*final(self)
                },
            ),
            final(self).pending_sounds == old(self).pending_sounds,
            old(self).keeps_dirty(&*final(self)),
    {
        let n = self.snake.body.len();
        if n > 0 {
            let last = self.snake.body[n - 1];
            self.snake.body.push(last);
            assert(old(self).keeps_dirty(&*self));
            self.mark_position_dirty(last);
        }
    }

    /// Drops the last segment while the snake is longer than the minimum.
    fn shrink_tail(&mut self)
        ensures
            old(self).dirty_unique() ==> final(self).dirty_unique(),
            final(self).snake.body@ == if old(self).snake.body@.len() > MIN_SNAKE_LEN {
                old(self).snake.body@.drop_last()
            } else {
                old(self).snake.body@
            },
            old(self).same_state(
                &Game {
                    snake: Snake { body: old(self).snake.body, ..final(self).snake },
                    ..*final(self)
                },
            ),
            final(self).pending_sounds == old(self).pending_sounds,
            old(self).keeps_dirty(&*final(self)),
    {
        if self.snake.body.len() > MIN_SNAKE_LEN {
            let removed = self.snake.body.pop();
            assert(old(self).keeps_dirty(&*self));
            match removed {
                Some(cell) => self.mark_position_dirty(cell),
                None => {},
            }
        }
    }

    /// Applies the one-shot effect of a collected power-up: a speed effect
    /// starts its timer, ExtraPoints adds 50 points, Grow repeats the last
    /// segment twice, Shrink removes up to two tail segments keeping at
    /// least three.
    pub fn apply_power_up_effect(&mut self, power_up_type: PowerUpType)
        ensures
            old(self).dirty_unique() ==> final(self).dirty_unique(),
            old(self).effect_applied(&*final(self), power_up_type),
            old(self).same_frame(&*final(self)),
            final(self).snake.direction == old(self).snake.direction,
            final(self).food == old(self).food,
            final(self).game_over == old(self).game_over,
            final(self).power_up == old(self).power_up,
            old(self).keeps_dirty(&*final(self)),
    {
        match power_up_type {
            PowerUpType::SpeedBoost => {
                self.power_up_timer = Some(self.speed_effect_duration_ticks());
                self.active_speed_effect = Some(PowerUpType::SpeedBoost);
            },
            PowerUpType::SlowDown => {
                self.power_up_timer = Some(self.speed_effect_duration_ticks());
                self.active_speed_effect = Some(PowerUpType::SlowDown);
            },
            PowerUpType::ExtraPoints => {
                self.score = self.score.saturating_add(EXTRA_POINTS);
                self.update_high_score();
            },
            PowerUpType::Grow => {
                self.grow_tail();
                self.grow_tail();
            },
            PowerUpType::Shrink => {
                self.shrink_tail();
                self.shrink_tail();
                proof {
                    let b = old(self).snake.body@;
                    if b.len() >= MIN_SNAKE_LEN + 2 {
                        assert(self.snake.body@ =~= b.subrange(0, b.len() - 2));
                    } else if b.len() > MIN_SNAKE_LEN {
                        assert(self.snake.body@ =~= b.subrange(0, MIN_SNAKE_LEN as int));
                    }
                }
            },
        }
        self.play_sound();
    }

    /// Counts the speed effect down by one tick; at zero the timer and the
    /// active effect are both cleared.
    pub fn update_power_up_effects(&mut self)
        ensures
            final(self).power_up_timer == countdown_timer(old(self).power_up_timer),
            final(self).active_speed_effect == countdown_effect(
                old(self).power_up_timer,
                old(self).active_speed_effect,
            ),
            *final(self) == (Game {
                power_up_timer: final(self).power_up_timer,
                active_speed_effect: final(self).active_speed_effect,
                ..*old(self)
            }),
    {
        match self.power_up_timer {
            Some(t) => {
                if t <= 1 {
                    self.power_up_timer = None;
                    self.active_speed_effect = None;
                } else {
                    self.power_up_timer = Some(t - 1);
                }
            },
            None => {},
        }
    }

    /// When the head stands on an active power-up: marks its cell to redraw,
    /// applies its effect, removes it and tries to spawn a replacement at
    /// once. Otherwise nothing changes.
    pub fn check_power_up_collision(&mut self)
        requires
            old(self).snake.has_head(),
        ensures
            !old(self).collects() ==> *final(self) == *old(self),
            old(self).collects() ==> {
                &&& old(self).effect_applied(&*final(self), kind_of(old(self).power_up))
                &&& fresh_power_up(
                    final(self).power_up,
                    final(self).snake.body@,
                    final(self).food,
                    final(self).width,
                    final(self).height,
                )
                &&& final(self).is_dirty(old(self).power_up->Some_0.position)
                &&& final(self).power_up matches Some(q) ==> final(self).is_dirty(q.position)
            },
            old(self).same_frame(&*final(self)),
            final(self).snake.direction == old(self).snake.direction,
            final(self).food == old(self).food,
            final(self).game_over == old(self).game_over,
            old(self).keeps_dirty(&*final(self)),
            old(self).dirty_unique() ==> final(self).dirty_unique(),
    {
        match self.power_up {
            Some(power_up) => {
                if self.snake.head_position() == power_up.position && power_up.active {
                    self.mark_position_dirty(power_up.position);
                    let ghost marked = *self;
                    self.apply_power_up_effect(power_up.power_up_type);
                    assert(old(self).keeps_dirty(&*self));
                    assert(self.is_dirty(power_up.position)) by {
                        assert(marked.dirty_positions@.contains(power_up.position));
                    }
                    self.power_up = None;
                    let ghost cleared = *self;
                    assert(old(self).keeps_dirty(&*self));
                    self.generate_power_up();
                    assert(self.is_dirty(power_up.position)) by {
                        assert(cleared.dirty_positions@.contains(power_up.position));
                    }
                }
            },
            None => {},
        }
    }
}

impl Game {
    /// A fresh game for `difficulty` on a `width` by `height` board: the
    /// snake in the centre heading left, food on a free cell, perhaps a
    /// power-up, and everything on the board marked to redraw.
    pub fn new(difficulty: Difficulty, width: u16, height: u16, high_score: u32) -> (r: Game)
        ensures
            r.wf(),
            r.snake.body@ == spawn_body(width, height),
            r.snake.direction == Direction::Left,
            r.difficulty == difficulty,
            r.width == width,
            r.height == height,
            r.score == 0,
            r.high_score == high_score,
            !r.game_over,
            !r.paused,
            !r.muted,
            r.power_up_timer is None,
            r.active_speed_effect is None,
            if exists|p: Position| #[trigger]
                food_free_for(spawn_body(width, height), None, width, height, p) {
                food_free_for(spawn_body(width, height), None, width, height, r.food)
            } else {
                r.food == (Position { x: 0, y: 0 })
            },
            fresh_power_up(r.power_up, r.snake.body@, r.food, width, height),
            forall|p: Position| r.snake.body@.contains(p) ==> #[trigger] r.is_dirty(p),
            r.is_dirty(r.food),
            r.power_up matches Some(pu) ==> r.is_dirty(pu.position),
    {
        let mut game = Game {
            snake: Snake::new(width, height),
            food: Position { x: 0, y: 0 },
            score: 0,
            high_score,
            game_over: false,
            difficulty,
            paused: false,
            power_up: None,
            power_up_timer: None,
            active_speed_effect: None,
            dirty_positions: Vec::new(),
            width,
            height,
            muted: false,
            pending_sounds: 0,
        };
        proof {
            game.lemma_food_cell_exists();
        }
        game.generate_food();
        game.generate_power_up();
        let body = game.snake.body.clone();
        game.mark_all_dirty(&body);
        let food = game.food;
        game.mark_position_dirty(food);
        match game.power_up {
            Some(power_up) => {
                assert(game.keeps_dirty(&game));
                game.mark_position_dirty(power_up.position);
            },
            None => {},
        }
        game
    }

    /// Advances the game by one step: moves the snake (growing when the
    /// next cell holds the food), ends the game when the head lands on the
    /// rest of the body, scores and respawns the food, collects a power-up
    /// under the head, counts the speed effect down, perhaps spawns a
    /// power-up, and marks the old and new body cells to redraw. Nothing
    /// happens once the game is over or while it is paused.
    pub fn tick(&mut self)
        requires
            old(self).wf(),
        ensures
            final(self).wf(),
            tick_post(*old(self), *final(self)),
    {
        if self.game_over || self.paused {
            return;
        }
        let ghost g = *self;
        let old_body = self.snake.body.clone();
        let next_head = self.snake.next_head(self.width, self.height);
        let grow = next_head == self.food;
        self.snake.move_forward(grow, self.width, self.height);
        let ghost body1 = self.snake.body@;
        assert(self.snake.head() == next_head);
        if self.snake.hits_itself() {
            self.game_over = true;
            self.play_sound();
        }
        assert(g.keeps_dirty(&*self));
        if grow {
            self.score = self.score.saturating_add(FOOD_POINTS);
            self.update_high_score();
            let eaten = self.food;
            assert(g.keeps_dirty(&*self));
            self.mark_position_dirty(eaten);
            assert(g.keeps_dirty(&*self));
            proof {
                self.lemma_food_cell_exists();
            }
            self.generate_food();
            assert(g.keeps_dirty(&*self));
            let food = self.food;
            self.mark_position_dirty(food);
            assert(g.keeps_dirty(&*self));
            self.play_sound();
        }
        let ghost before_collect = *self;
        self.check_power_up_collision();
        assert(g.keeps_dirty(&*self));
        if self.power_up_timer.is_some() {
            self.update_power_up_effects();
        }
        assert(g.keeps_dirty(&*self));
        let mut rng = rand::thread_rng();
        let draw = random_in_range(&mut rng, 0, 1000);
        if self.tick_wants_power_up(draw) {
            self.generate_power_up();
        }
        let ghost before_marks = *self;
        assert(g.keeps_dirty(&*self));
        self.mark_all_dirty(&old_body);
        let ghost mid = *self;
        let new_body = self.snake.body.clone();
        self.mark_all_dirty(&new_body);
        proof {
            let n = *self;
            let nh = g.snake.next_head_spec(g.width, g.height);
            let collected = g.power_up matches Some(pu) && pu.position == nh && pu.active;
            assert(n.game_over == body1.subrange(1, body1.len() as int).contains(nh));
            assert(collected == before_collect.collects());
            assert(n.snake.body@ == if collected {
                body_after_effect(body1, kind_of(g.power_up))
            } else {
                body1
            });
            assert(old_body@ == g.snake.body@);
            assert(new_body@ == n.snake.body@);
            assert forall|p: Position|
                g.is_dirty(p) || g.snake.body@.contains(p) || n.snake.body@.contains(
                    p,
                ) implies #[trigger] n.is_dirty(p) by {
                if g.is_dirty(p) {
                    assert(before_marks.dirty_positions@.contains(p));
                    assert(mid.dirty_positions@.contains(p));
                }
                if g.snake.body@.contains(p) {
                    assert(mid.is_dirty(p));
                    assert(mid.dirty_positions@.contains(p));
                }
            }
        }
    }
}

} // verus!
