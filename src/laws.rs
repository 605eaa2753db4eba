//! Properties that relate several operations of the engine, proved once for
//! all inputs.

use crate::game::{
    base_tick_millis, countdown_effect, countdown_timer, effect_duration, effect_percent,
    max_steps, progression_percent, progression_steps, refresh_spawn_per_mille,
    step_percent, tick_post, tick_spawn_per_mille, Game, POINTS_PER_STEP,
};
use crate::snake::moved_body;
use crate::utils::{difficulty_rank, Difficulty, PowerUpType};
use vstd::prelude::*;

verus! {

/// On a tick that collects no Grow or Shrink power-up, the body keeps its
/// length when the snake does not eat and gains exactly one segment when
/// it does.
pub proof fn tick_length_law(g: Game, n: Game)
    requires
        g.wf(),
        !g.game_over,
        !g.paused,
        tick_post(g, n),
        !(g.power_up matches Some(pu) && pu.position == g.snake.next_head_spec(g.width, g.height)
            && pu.active && (pu.power_up_type == PowerUpType::Grow || pu.power_up_type
            == PowerUpType::Shrink)),
    ensures
        n.snake.body@.len() == g.snake.body@.len() + if g.snake.next_head_spec(g.width, g.height)
            == g.food {
            1int
        } else {
            0int
        },
{
}

/// A running game ends on a tick exactly when the head, after the move,
/// stands on another segment of the moved body. The tail cell that the
/// move vacates is no longer part of that body.
pub proof fn tick_collision_law(g: Game, n: Game)
    requires
        g.wf(),
        !g.game_over,
        !g.paused,
        tick_post(g, n),
    ensures
        ({
            let nh = g.snake.next_head_spec(g.width, g.height);
            let body1 = moved_body(g.snake.body@, nh, nh == g.food);
            &&& n.game_over <==> body1.subrange(1, body1.len() as int).contains(nh)
            &&& nh != g.food ==> body1.subrange(1, body1.len() as int)
                =~= g.snake.body@.drop_last()
        }),
{
}

/// The progression multiplier never rises as the score grows, and never
/// falls under `100 - max_steps * step_percent`.
pub proof fn progression_law(d: Difficulty, low: int, high: int)
    requires
        0 <= low <= high,
    ensures
        progression_percent(d, high) <= progression_percent(d, low),
        progression_percent(d, low) >= 100 - max_steps(d) * step_percent(d),
{
    let per = POINTS_PER_STEP as int;
    assert(low / per <= high / per) by (nonlinear_arith)
        requires
            0 <= low <= high,
            per == 50,
    ;
    let a = progression_steps(d, low);
    let b = progression_steps(d, high);
    let k = step_percent(d);
    assert(0 <= a <= b <= max_steps(d));
    assert(a * k <= b * k <= max_steps(d) * k) by (nonlinear_arith)
        requires
            0 <= a <= b <= max_steps(d),
            k > 0,
    ;
}

/// A harder tier has shorter base tick intervals on both axes, lower
/// power-up spawn chances and a shorter speed effect.
pub proof fn harder_tier_law(easier: Difficulty, harder: Difficulty)
    requires
        difficulty_rank(easier) < difficulty_rank(harder),
    ensures
        base_tick_millis(harder).0 < base_tick_millis(easier).0,
        base_tick_millis(harder).1 < base_tick_millis(easier).1,
        refresh_spawn_per_mille(harder) < refresh_spawn_per_mille(easier),
        tick_spawn_per_mille(harder) < tick_spawn_per_mille(easier),
        effect_duration(harder) < effect_duration(easier),
{
}

/// A speed effect on its last tick expires: the countdown clears both the
/// timer and the effect, and the pace multiplier returns to 100.
pub proof fn effect_expiry_law(timer: Option<u32>, effect: Option<PowerUpType>)
    requires
        timer matches Some(t) && t <= 1,
    ensures
        countdown_timer(timer) is None,
        countdown_effect(timer, effect) is None,
        effect_percent(countdown_timer(timer), countdown_effect(timer, effect)) == 100,
{
}

} // verus!
