//! The per-tick step algorithm and the post-terminal countdown.

use vstd::prelude::*;

use crate::command_queue::CommandQueue;
use crate::direction::{Direction, spec_direction_between};
use crate::game::{
    GAME_OVER_DELAY_MS, GRID_SIZE, GameTimer, SnakeGame, adjacent, cell_eq, contains_cell,
    contains_cell_up_to, contains_up_to, has_free_cell, in_bounds, is_initial_config,
    lemma_body_len_bounded, random_food_position, reset_game_state, wf_body,
};
use crate::lua_engine::{LuaEngine, load_post};

verus! {

/// The heading actually used this tick: an accepted decision, unless it is
/// the exact opposite of the current heading (the self-reversal guard), or
/// there is no decision; then the current heading is kept.
pub open spec fn effective_heading(cur: Direction, decision: Option<Direction>) -> Direction {
    match decision {
        Some(d) => if d == cur.spec_opposite() {
            cur
        } else {
            d
        },
        None => cur,
    }
}

/// A decision that exactly reverses the current heading is ignored; the
/// heading remains unchanged.
pub proof fn lemma_reversal_ignored(cur: Direction)
    ensures
        effective_heading(cur, Some(cur.spec_opposite())) == cur,
{
}

/// The cell one grid step from `c` in direction `d`. Exact (no wrap-around)
/// whenever `c` is in bounds.
pub open spec fn add_delta(c: (i32, i32), d: Direction) -> (i32, i32) {
    (((c.0 + d.spec_delta().0) as i32), ((c.1 + d.spec_delta().1) as i32))
}

/// On grid-adjacent cells, `direction_between` returns the single axis that
/// actually leads from `a` to `b`: one step from `a` in that direction is
/// exactly `b`.
pub proof fn lemma_direction_between_adjacent(a: (i32, i32), b: (i32, i32))
    requires
        adjacent(a, b),
    ensures
        add_delta(a, spec_direction_between(a, b)) == b,
{
}

/// The self-collision test of one step: when growing, the head move is
/// checked against every body cell; when not growing, the tail cell is
/// exempt, because it vacates this tick.
pub open spec fn hits_body(s: Seq<(i32, i32)>, nh: (i32, i32), grow: bool) -> bool {
    if grow {
        contains_up_to(s, s.len() as int, nh)
    } else {
        contains_up_to(s, s.len() - 1, nh)
    }
}

/// Full relation between the states before and after one step of the
/// simulation with the given script decision. The only part left open is
/// which free cell newly placed food lands on.
pub open spec fn step_post(pre: SnakeGame, post: SnakeGame, decision: Option<Direction>) -> bool {
    let hd = effective_heading(pre.direction, decision);
    let nh = add_delta(pre.snake@[0], hd);
    let grow = nh == pre.food;
    let dead = !in_bounds(nh) || hits_body(pre.snake@, nh, grow);
    &&& post.direction == hd
    &&& (dead ==> {
        &&& post.snake@ == pre.snake@
        &&& post.food == pre.food
        &&& post.score == pre.score
        &&& post.game_over
        &&& post.game_won == pre.game_won
        &&& post.game_over_timer == GAME_OVER_DELAY_MS
    })
    &&& (!dead && grow ==> {
        &&& post.snake@ == seq![nh] + pre.snake@
        &&& post.score == pre.score + 1
        &&& (has_free_cell(post.snake@) ==> {
            &&& in_bounds(post.food)
            &&& !post.snake@.contains(post.food)
            &&& !post.game_over
            &&& post.game_won == pre.game_won
            &&& post.game_over_timer == pre.game_over_timer
        })
        &&& (!has_free_cell(post.snake@) ==> {
            &&& post.food == pre.food
            &&& post.game_over
            &&& post.game_won
            &&& post.game_over_timer == GAME_OVER_DELAY_MS
        })
    })
    &&& (!dead && !grow ==> {
        &&& post.snake@ == (seq![nh] + pre.snake@).drop_last()
        &&& post.food == pre.food
        &&& post.score == pre.score
        &&& post.game_over == pre.game_over
        &&& post.game_won == pre.game_won
        &&& post.game_over_timer == pre.game_over_timer
    })
}

/// Advances the simulation by one tick, given the (already validated)
/// decision of the script for this tick.
///
/// In order: self-reversal guard, head move, wall collision, self collision
/// with the tail exempt exactly when not growing, growth and scoring with
/// fresh food placement, win detection when no free cell is left, and
/// otherwise the tail vacating its cell.
#[verifier::rlimit(100)]
#[verifier::spinoff_prover]
pub fn step(game: &mut SnakeGame, decision: Option<Direction>)
    requires
        old(game).wf_core(),
        !old(game).game_over,
    ensures
        final(game).wf_core(),
        old(game).wf() ==> final(game).wf(),
        step_post(*old(game), *final(game), decision),
{
    let ghost pre = *old(game);
    let hd = match decision {
        Some(d) => if d == game.direction.opposite() {
            game.direction
        } else {
            d
        },
        None => game.direction,
    };
    game.direction = hd;
    proof {
        assert(in_bounds(pre.snake@[0]));
    }
    let head = game.snake[0];
    let (dx, dy) = hd.delta();
    let nh = (head.0 + dx, head.1 + dy);
    proof {
        assert(nh == add_delta(pre.snake@[0], hd));
    }
    if nh.0 < 0 || nh.0 >= GRID_SIZE || nh.1 < 0 || nh.1 >= GRID_SIZE {
        game.game_over = true;
        game.game_over_timer = GAME_OVER_DELAY_MS;
        return;
    }
    let will_grow = cell_eq(nh, game.food);
    let len = game.snake.len();
    let collision = if will_grow {
        contains_cell(&game.snake, nh)
    } else {
        contains_cell_up_to(&game.snake, len - 1, nh)
    };
    proof {
        assert(collision == hits_body(pre.snake@, nh, will_grow));
    }
    if collision {
        game.game_over = true;
        game.game_over_timer = GAME_OVER_DELAY_MS;
        return;
    }
    game.snake.push_front(nh);
    proof {
        assert(game.snake@ == seq![nh] + pre.snake@);
    }
    if will_grow {
        proof {
            assert(!contains_up_to(pre.snake@, pre.snake@.len() as int, nh));
            lemma_grown_body_wf(pre.snake@, nh);
            lemma_body_len_bounded(pre.snake@);
        }
        game.score = game.score + 1;
        match random_food_position(&game.snake) {
            Some(f) => {
                game.food = f;
            },
            None => {
                game.game_won = true;
                game.game_over = true;
                game.game_over_timer = GAME_OVER_DELAY_MS;
            },
        }
    } else {
        game.snake.pop_back();
        proof {
            assert(game.snake@ =~= (seq![nh] + pre.snake@).drop_last());
            lemma_shifted_body_wf(pre.snake@, nh);
            if pre.wf() {
                assert forall|j: int|
                    0 <= j < game.snake@.len() implies game.snake@[j] != pre.food by {
                    if j == 0 {
                        assert(game.snake@[0] == nh);
                    } else {
                        assert(game.snake@[j] == pre.snake@[j - 1]);
                        assert(!pre.snake@.contains(pre.food));
                        assert(pre.snake@[j - 1] != pre.food);
                    }
                }
            }
        }
    }
}

/// Prepending a fresh head that hits no body cell keeps the body well
/// formed.
proof fn lemma_grown_body_wf(s: Seq<(i32, i32)>, nh: (i32, i32))
    requires
        wf_body(s),
        in_bounds(nh),
        adjacent(nh, s[0]),
        !contains_up_to(s, s.len() as int, nh),
    ensures
        wf_body(seq![nh] + s),
{
    let t = seq![nh] + s;
    assert forall|i: int| 0 <= i < t.len() implies in_bounds(#[trigger] t[i]) by {
        if i > 0 {
            assert(t[i] == s[i - 1]);
        }
    }
    assert forall|i: int, j: int| 0 <= i < j < t.len() implies t[i] != t[j] by {
        if i == 0 {
            assert(t[j] == s[j - 1]);
            assert(!(exists|k: int| 0 <= k < s.len() && s[k] == nh));
            assert(s[j - 1] != nh);
        } else {
            assert(t[i] == s[i - 1] && t[j] == s[j - 1]);
        }
    }
    assert forall|i: int| 0 <= i < t.len() - 1 implies #[trigger] adjacent(t[i], t[i + 1]) by {
        if i == 0 {
            assert(t[0] == nh && t[1] == s[0]);
        } else {
            assert(t[i] == s[i - 1] && t[i + 1] == s[i]);
            assert(s[(i - 1) + 1] == s[i]);
            assert(adjacent(s[i - 1], s[i]));
        }
    }
}

/// Prepending a fresh head that hits no body cell but the tail, and letting
/// the tail vacate, keeps the body well formed.
proof fn lemma_shifted_body_wf(s: Seq<(i32, i32)>, nh: (i32, i32))
    requires
        wf_body(s),
        in_bounds(nh),
        adjacent(nh, s[0]),
        !contains_up_to(s, s.len() - 1, nh),
    ensures
        wf_body((seq![nh] + s).drop_last()),
{
    let t = (seq![nh] + s).drop_last();
    assert(t.len() == s.len());
    assert forall|i: int| 0 <= i < t.len() implies in_bounds(#[trigger] t[i]) by {
        if i > 0 {
            assert(t[i] == s[i - 1]);
        }
    }
    assert forall|i: int, j: int| 0 <= i < j < t.len() implies t[i] != t[j] by {
        if i == 0 {
            assert(t[j] == s[j - 1]);
            assert(!(exists|k: int| 0 <= k < s.len() - 1 && s[k] == nh));
            assert(s[j - 1] != nh);
        } else {
            assert(t[i] == s[i - 1] && t[j] == s[j - 1]);
        }
    }
    assert forall|i: int| 0 <= i < t.len() - 1 implies #[trigger] adjacent(t[i], t[i + 1]) by {
        if i == 0 {
            assert(t[0] == nh && t[1] == s[0]);
        } else {
            assert(t[i] == s[i - 1] && t[i + 1] == s[i]);
            assert(s[(i - 1) + 1] == s[i]);
            assert(adjacent(s[i - 1], s[i]));
        }
    }
}

/// A non-growth head move that lands exactly on the current tail cell is
/// legal: the tail vacates this tick, so the step does not end the game.
pub proof fn lemma_step_onto_tail_is_legal(
    pre: SnakeGame,
    post: SnakeGame,
    decision: Option<Direction>,
)
    requires
        pre.wf_core(),
        !pre.game_over,
        step_post(pre, post, decision),
        add_delta(pre.snake@[0], effective_heading(pre.direction, decision)) == pre.snake@.last(),
        pre.snake@.last() != pre.food,
    ensures
        !post.game_over,
{
    let nh = pre.snake@.last();
    assert(in_bounds(nh));
    assert forall|j: int| 0 <= j < pre.snake@.len() - 1 implies pre.snake@[j] != nh by {
        assert(pre.snake@[j] != pre.snake@[pre.snake@.len() - 1]);
    }
}

/// A head move onto the food cell that coincides with the current tail is a
/// collision: because the snake grows, the tail is not exempt.
pub proof fn lemma_step_growth_onto_tail_collides(
    pre: SnakeGame,
    post: SnakeGame,
    decision: Option<Direction>,
)
    requires
        pre.wf_core(),
        !pre.game_over,
        step_post(pre, post, decision),
        add_delta(pre.snake@[0], effective_heading(pre.direction, decision)) == pre.snake@.last(),
        pre.snake@.last() == pre.food,
    ensures
        post.game_over,
{
    let s = pre.snake@;
    let nh = s.last();
    assert(contains_up_to(s, s.len() as int, nh)) by {
        assert(0 <= s.len() - 1 < s.len() && s[s.len() - 1] == nh);
    }
}

/// Drains the command queue once: a pending script text is handed to the
/// host's `load_script`, and a pending reset restores the initial
/// configuration, overriding any in-flight countdown.
pub fn receive_pending_code(
    queue: &mut CommandQueue,
    engine: &mut LuaEngine,
    game: &mut SnakeGame,
)
    ensures
        final(queue).pending_script is None,
        !final(queue).pending_reset,
        old(queue).pending_script is None ==> *final(engine) == *old(engine),
        old(queue).pending_script is Some ==> (exists|ok: bool| #[trigger] load_post(
            *final(engine),
            ok,
        )),
        old(queue).pending_reset ==> is_initial_config(*final(game)) && final(game).wf(),
        !old(queue).pending_reset ==> *final(game) == *old(game),
{
    match queue.take_script() {
        Some(code) => {
            let loaded = engine.load_script(code.as_str());
            proof {
                assert(load_post(*engine, loaded));
            }
        },
        None => {},
    }
    if queue.take_reset() {
        reset_game_state(game);
    }
}

/// Advances the tick timer; each time its interval elapses on an active
/// game, asks the script host for a decision and advances the simulation
/// one step. A terminal game, or a tick that has not yet come due, leaves
/// the simulation untouched.
pub fn game_tick(
    timer: &mut GameTimer,
    game: &mut SnakeGame,
    engine: &mut LuaEngine,
    elapsed_ms: u64,
)
    requires
        old(timer).wf(),
        old(game).wf(),
    ensures
        final(timer).wf(),
        old(timer).spec_ticked(*final(timer), elapsed_ms),
        final(game).wf(),
        final(engine).spec_loaded() == old(engine).spec_loaded(),
        !old(timer).spec_fires(elapsed_ms) || old(game).game_over ==> *final(game) == *old(game)
            && *final(engine) == *old(engine),
        old(timer).spec_fires(elapsed_ms) && !old(game).game_over ==> (exists|
            d: Option<Direction>,
        | step_post(*old(game), *final(game), d)),
{
    let fired = timer.tick(elapsed_ms);
    if !fired || game.game_over {
        return;
    }
    let decision = engine.call_think(game);
    step(game, decision);
    proof {
        assert(step_post(*old(game), *game, decision));
    }
}

/// Counts down the post-terminal delay by the elapsed wall-clock time; at or
/// below zero the game resets to the initial configuration. Does nothing
/// while the game is active.
pub fn game_over_countdown(game: &mut SnakeGame, elapsed_ms: u64)
    ensures
        !old(game).game_over ==> *final(game) == *old(game),
        old(game).game_over && old(game).game_over_timer > elapsed_ms ==> {
            &&& *final(game) == SnakeGame {
                game_over_timer: (old(game).game_over_timer - elapsed_ms) as u64,
                ..*old(game)
            }
        },
        old(game).game_over && old(game).game_over_timer <= elapsed_ms ==> is_initial_config(
            *final(game),
        ) && final(game).wf(),
{
    if !game.game_over {
        return;
    }
    let remaining = if elapsed_ms >= game.game_over_timer {
        0
    } else {
        game.game_over_timer - elapsed_ms
    };
    game.game_over_timer = remaining;
    if remaining == 0 {
        reset_game_state(game);
    }
}

/// Relation of one full driver invocation, through its two intermediate
/// states: `g1` is the simulation after the command drain, `g2` after the
/// step (if one was due); the countdown then leads from `g2` to `post`.
pub open spec fn advance_rel(
    pre_queue: CommandQueue,
    pre_timer: GameTimer,
    pre: SnakeGame,
    post: SnakeGame,
    elapsed_ms: u64,
    g1: SnakeGame,
    g2: SnakeGame,
    d: Option<Direction>,
) -> bool {
    &&& (pre_queue.pending_reset ==> is_initial_config(g1))
    &&& (!pre_queue.pending_reset ==> g1 == pre)
    &&& (pre_timer.spec_fires(elapsed_ms) && !g1.game_over ==> step_post(g1, g2, d))
    &&& (!pre_timer.spec_fires(elapsed_ms) || g1.game_over ==> g2 == g1)
    &&& (!g2.game_over ==> post == g2)
    &&& (g2.game_over && g2.game_over_timer > elapsed_ms ==> post == SnakeGame {
        game_over_timer: (g2.game_over_timer - elapsed_ms) as u64,
        ..g2
    })
    &&& (g2.game_over && g2.game_over_timer <= elapsed_ms ==> is_initial_config(post))
}

/// One invocation of the fixed-interval driver: drains the command queue,
/// then, when the tick interval has elapsed on an active game, asks the
/// script host for a decision and advances the simulation one step, and
/// finally runs the post-terminal countdown. The ensures names the two
/// intermediate states: after the drain (`g1`) and after the step (`g2`).
pub fn advance(
    queue: &mut CommandQueue,
    engine: &mut LuaEngine,
    game: &mut SnakeGame,
    timer: &mut GameTimer,
    elapsed_ms: u64,
)
    requires
        old(timer).wf(),
        old(game).wf(),
    ensures
        final(timer).wf(),
        old(timer).spec_ticked(*final(timer), elapsed_ms),
        final(game).wf(),
        final(queue).pending_script is None,
        !final(queue).pending_reset,
        exists|g1: SnakeGame, g2: SnakeGame, d: Option<Direction>| #[trigger] advance_rel(
            *old(queue),
            *old(timer),
            *old(game),
            *final(game),
            elapsed_ms,
            g1,
            g2,
            d,
        ),
{
    receive_pending_code(queue, engine, game);
    let ghost g1 = *game;
    game_tick(timer, game, engine, elapsed_ms);
    let ghost g2 = *game;
    game_over_countdown(game, elapsed_ms);
    proof {
        let d = if old(timer).spec_fires(elapsed_ms) && !g1.game_over {
            choose|d: Option<Direction>| step_post(g1, g2, d)
        } else {
            Option::<Direction>::None
        };
        assert(advance_rel(
            *old(queue),
            *old(timer),
            *old(game),
            *game,
            elapsed_ms,
            g1,
            g2,
            d,
        ));
    }
}

} // verus!
