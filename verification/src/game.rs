//! The simulation state: the grid, the snake body, the food cell, the score
//! and the lifecycle flags, together with food placement and reset.

use vstd::prelude::*;
use vstd::seq_lib::*;
use vstd::set_lib::*;
use std::collections::VecDeque;

use crate::direction::Direction;

verus! {

/// Width and height of the square grid, in cells.
pub const GRID_SIZE: i32 = 32;

/// Number of body cells of a freshly constructed snake.
pub const INITIAL_LENGTH: usize = 3;

/// Milliseconds between two simulation ticks.
pub const TICK_MS: u64 = 150;

/// Milliseconds the terminal screen stays up before the game resets.
pub const GAME_OVER_DELAY_MS: u64 = 3000;

/// A grid cell lies inside the square grid on both axes.
pub open spec fn in_bounds(c: (i32, i32)) -> bool {
    0 <= c.0 < GRID_SIZE && 0 <= c.1 < GRID_SIZE
}

/// Two cells are exactly one grid step apart (no diagonal links).
pub open spec fn adjacent(a: (i32, i32), b: (i32, i32)) -> bool {
    ||| a.0 == b.0 && (a.1 - b.1 == 1 || b.1 - a.1 == 1)
    ||| a.1 == b.1 && (a.0 - b.0 == 1 || b.0 - a.0 == 1)
}

/// Whether `c` occurs among the first `n` cells of `s`.
pub open spec fn contains_up_to(s: Seq<(i32, i32)>, n: int, c: (i32, i32)) -> bool {
    exists|j: int| 0 <= j < n && s[j] == c
}

/// Some in-bounds cell is not occupied by `s`.
pub open spec fn has_free_cell(s: Seq<(i32, i32)>) -> bool {
    exists|c: (i32, i32)| in_bounds(c) && !s.contains(c)
}

/// A well-formed snake body: non-empty, inside the grid, self-avoiding, and
/// chained by single grid steps, head at index 0.
pub open spec fn wf_body(s: Seq<(i32, i32)>) -> bool {
    &&& s.len() >= 1
    &&& forall|i: int| 0 <= i < s.len() ==> in_bounds(#[trigger] s[i])
    &&& s.no_duplicates()
    &&& forall|i: int| #![trigger s[i], s[i + 1]] 0 <= i < s.len() - 1 ==> adjacent(s[i], s[i + 1])
}

/// Identifies an in-bounds cell by a number below `GRID_SIZE * GRID_SIZE`,
/// injectively.
pub open spec fn cell_id(c: (i32, i32)) -> int {
    c.0 * GRID_SIZE + c.1
}

/// A self-avoiding body inside the grid cannot have more cells than the grid.
pub proof fn lemma_body_len_bounded(s: Seq<(i32, i32)>)
    requires
        forall|i: int| 0 <= i < s.len() ==> in_bounds(#[trigger] s[i]),
        s.no_duplicates(),
    ensures
        s.len() <= GRID_SIZE * GRID_SIZE,
{
    let ids = s.map_values(|c: (i32, i32)| cell_id(c));
    assert forall|i: int, j: int| 0 <= i < j < ids.len() implies ids[i] != ids[j] by {
        assert(s[i] != s[j]);
        assert(in_bounds(s[i]) && in_bounds(s[j]));
    }
    assert(ids.no_duplicates());
    ids.unique_seq_to_set();
    let range = set_int_range(0, GRID_SIZE * GRID_SIZE);
    assert forall|x: int| ids.to_set().contains(x) implies range.contains(x) by {
        let i = choose|i: int| 0 <= i < ids.len() && ids[i] == x;
        assert(in_bounds(s[i]));
    }
    lemma_int_range(0, GRID_SIZE * GRID_SIZE);
    lemma_len_subset(ids.to_set(), range);
}

/// The grid, body-segment sequence, food cell, score, and lifecycle flags of
/// one simulation.
pub struct SnakeGame {
    /// Body cells, head first, tail last.
    pub snake: VecDeque<(i32, i32)>,
    /// Current movement direction.
    pub direction: Direction,
    /// The single food cell.
    pub food: (i32, i32),
    /// Food cells eaten since the last reset.
    pub score: u32,
    /// Set when the snake hits a wall or itself, or fills the grid.
    pub game_over: bool,
    /// Set only together with `game_over`, when the body fills every cell.
    pub game_won: bool,
    /// Remaining milliseconds of the post-terminal countdown.
    pub game_over_timer: u64,
}

impl SnakeGame {
    /// Core invariant: the body is well formed, the score never exceeds the
    /// body length, and a won game is always over.
    pub open spec fn wf_core(self) -> bool {
        &&& wf_body(self.snake@)
        &&& self.score <= self.snake@.len()
        &&& (self.game_won ==> self.game_over)
    }

    /// Full state invariant: additionally, while the game is active the
    /// food is an unoccupied in-bounds cell.
    pub open spec fn wf(self) -> bool {
        &&& self.wf_core()
        &&& (!self.game_over ==> in_bounds(self.food) && !self.snake@.contains(self.food))
    }
}

/// The fixed body every game starts from: three cells, head at the grid
/// center (`GRID_SIZE / 2`), extending west.
pub open spec fn initial_body() -> Seq<(i32, i32)> {
    seq![(16i32, 16i32), (15i32, 16i32), (14i32, 16i32)]
}

/// The configuration established at construction and restored by every
/// reset; only the food cell varies between resets.
pub open spec fn is_initial_config(g: SnakeGame) -> bool {
    &&& g.snake@ == initial_body()
    &&& g.direction == Direction::East
    &&& in_bounds(g.food) && !g.snake@.contains(g.food)
    &&& g.score == 0
    &&& !g.game_over
    &&& !g.game_won
    &&& g.game_over_timer == 0
}

/// The initial configuration satisfies the state invariant.
pub proof fn lemma_initial_config_wf(g: SnakeGame)
    requires
        is_initial_config(g),
    ensures
        g.wf(),
{
    assert(adjacent(initial_body()[0], initial_body()[1]));
    assert(adjacent(initial_body()[1], initial_body()[2]));
}

/// A freshly constructed or reset simulation has a three-cell body with its
/// head at the grid center, heads east, is active with score zero, and its
/// food is an unoccupied in-bounds cell.
pub proof fn lemma_initial_config_shape(g: SnakeGame)
    requires
        is_initial_config(g),
    ensures
        g.snake@.len() == INITIAL_LENGTH,
        g.snake@[0] == (((GRID_SIZE / 2) as i32), ((GRID_SIZE / 2) as i32)),
        g.direction == Direction::East,
        g.score == 0,
        !g.game_over,
        !g.game_won,
        in_bounds(g.food) && !g.snake@.contains(g.food),
{
}

/// Field-wise comparison of two grid cells.
pub fn cell_eq(a: (i32, i32), b: (i32, i32)) -> (r: bool)
    ensures
        r == (a == b),
{
    a.0 == b.0 && a.1 == b.1
}

/// Whether `c` occurs anywhere in the body.
pub fn contains_cell(snake: &VecDeque<(i32, i32)>, c: (i32, i32)) -> (r: bool)
    ensures
        r == snake@.contains(c),
{
    let n = snake.len();
    let mut i: usize = 0;
    while i < n
        invariant
            i <= n,
            n == snake@.len(),
            forall|j: int| 0 <= j < i ==> snake@[j] != c,
        decreases n - i,
    {
        if cell_eq(snake[i], c) {
            return true;
        }
        i = i + 1;
    }
    false
}

/// Whether `c` occurs among the first `n` body cells.
pub fn contains_cell_up_to(snake: &VecDeque<(i32, i32)>, n: usize, c: (i32, i32)) -> (r: bool)
    requires
        n <= snake@.len(),
    ensures
        r == contains_up_to(snake@, n as int, c),
{
    let mut i: usize = 0;
    while i < n
        invariant
            i <= n,
            n <= snake@.len(),
            forall|j: int| 0 <= j < i ==> snake@[j] != c,
        decreases n - i,
    {
        if cell_eq(snake[i], c) {
            return true;
        }
        i = i + 1;
    }
    false
}

/// Relies on getrandom::fill for 8 bytes of OS randomness; `None` when the
/// OS random source fails.
#[verifier::external_body]
fn random_u64() -> (r: Option<u64>) {
    let mut buf = [0u8; 8];
    match getrandom::fill(&mut buf) {
        Ok(()) => Some(u64::from_le_bytes(buf)),
        Err(_) => None,
    }
}

/// Picks a food cell at random among the cells not occupied by `snake`;
/// `None` exactly when the body covers the whole grid. (If the OS random
/// source fails, the first free cell is used, so the simulation never
/// stalls.)
pub fn random_food_position(snake: &VecDeque<(i32, i32)>) -> (r: Option<(i32, i32)>)
    ensures
        r matches Some(c) ==> in_bounds(c) && !snake@.contains(c),
        r is None <==> !has_free_cell(snake@),
{
    let mut free: Vec<(i32, i32)> = Vec::new();
    let mut x: i32 = 0;
    while x < GRID_SIZE
        invariant
            0 <= x <= GRID_SIZE,
            forall|k: int|
                0 <= k < free@.len() ==> in_bounds(#[trigger] free@[k]) && !snake@.contains(
                    free@[k],
                ),
            forall|c: (i32, i32)|
                in_bounds(c) && c.0 < x && !snake@.contains(c) ==> free@.contains(c),
        decreases GRID_SIZE - x,
    {
        let mut y: i32 = 0;
        while y < GRID_SIZE
            invariant
                0 <= x < GRID_SIZE,
                0 <= y <= GRID_SIZE,
                forall|k: int|
                    0 <= k < free@.len() ==> in_bounds(#[trigger] free@[k]) && !snake@.contains(
                        free@[k],
                    ),
                forall|c: (i32, i32)|
                    in_bounds(c) && (c.0 < x || (c.0 == x && c.1 < y)) && !snake@.contains(c)
                        ==> free@.contains(c),
            decreases GRID_SIZE - y,
        {
            let ghost free0 = free@;
            if !contains_cell(snake, (x, y)) {
                free.push((x, y));
            }
            proof {
                assert forall|c: (i32, i32)|
                    in_bounds(c) && (c.0 < x || (c.0 == x && c.1 < y + 1)) && !snake@.contains(
                        c,
                    ) implies free@.contains(c) by {
                    if c.0 == x && c.1 == y {
                        assert(free@[free@.len() - 1] == c);
                    } else {
                        assert(free0.contains(c));
                        let j = choose|j: int| 0 <= j < free0.len() && free0[j] == c;
                        assert(free@[j] == c);
                    }
                }
            }
            y = y + 1;
        }
        x = x + 1;
    }
    if free.len() == 0 {
        proof {
            assert forall|c: (i32, i32)| in_bounds(c) implies snake@.contains(c) by {
                if !snake@.contains(c) {
                    assert(free@.contains(c));
                }
            }
        }
        return None;
    }
    let idx: usize = match random_u64() {
        Some(n) => (n % (free.len() as u64)) as usize,
        None => 0,
    };
    proof {
        assert(free@.contains(free@[idx as int]));
    }
    Some(free[idx])
}

impl Default for SnakeGame {
    /// A fresh simulation: three-cell body centered on the grid, heading
    /// east, freshly placed food, everything else zeroed.
    fn default() -> (g: SnakeGame)
        ensures
            is_initial_config(g),
            g.wf(),
    {
        let mut snake: VecDeque<(i32, i32)> = VecDeque::new();
        snake.push_back((16, 16));
        snake.push_back((15, 16));
        snake.push_back((14, 16));
        proof {
            assert(snake@ =~= initial_body());
        }
        let food = match random_food_position(&snake) {
            Some(f) => f,
            None => {
                proof {
                    assert(in_bounds((0i32, 0i32)));
                    assert(!snake@.contains((0i32, 0i32)));
                    assert(has_free_cell(snake@));
                }
                (0, 0)
            },
        };
        let g = SnakeGame {
            snake,
            direction: Direction::East,
            food,
            score: 0,
            game_over: false,
            game_won: false,
            game_over_timer: 0,
        };
        proof {
            lemma_initial_config_wf(g);
        }
        g
    }
}

/// Restores the initial configuration, with a newly placed food cell.
pub fn reset_game_state(game: &mut SnakeGame)
    ensures
        is_initial_config(*final(game)),
        final(game).wf(),
{
    *game = SnakeGame::default();
}

/// Fixed-interval tick source: accumulates elapsed wall-clock time and
/// fires each time a full interval has passed.
pub struct GameTimer {
    /// Milliseconds accumulated toward the next tick.
    pub acc_ms: u64,
    /// Milliseconds between ticks.
    pub interval_ms: u64,
}

impl GameTimer {
    pub open spec fn wf(self) -> bool {
        self.interval_ms >= 1
    }

    /// Whether adding `elapsed_ms` completes the current interval.
    pub open spec fn spec_fires(self, elapsed_ms: u64) -> bool {
        self.acc_ms + elapsed_ms >= self.interval_ms
    }

    /// Exact relation between the timer before and after one advance by
    /// `elapsed_ms`: elapsed time accumulates, and on firing the remainder
    /// is carried into the next interval (elapsed time beyond `u64::MAX`
    /// saturates).
    pub open spec fn spec_ticked(self, post: GameTimer, elapsed_ms: u64) -> bool {
        &&& post.interval_ms == self.interval_ms
        &&& (!self.spec_fires(elapsed_ms) ==> post.acc_ms == self.acc_ms + elapsed_ms)
        &&& (self.spec_fires(elapsed_ms) && self.acc_ms + elapsed_ms <= u64::MAX
            ==> post.acc_ms == (self.acc_ms + elapsed_ms) % (self.interval_ms as int))
        &&& (self.spec_fires(elapsed_ms) && self.acc_ms + elapsed_ms > u64::MAX
            ==> post.acc_ms == (u64::MAX as int) % (self.interval_ms as int))
    }

    pub fn new(interval_ms: u64) -> (t: GameTimer)
        requires
            interval_ms >= 1,
        ensures
            t.acc_ms == 0,
            t.interval_ms == interval_ms,
            t.wf(),
    {
        GameTimer { acc_ms: 0, interval_ms }
    }

    /// Advances the timer by `elapsed_ms`; returns whether a tick fired.
    /// Time beyond a completed interval is carried into the next one.
    pub fn tick(&mut self, elapsed_ms: u64) -> (fired: bool)
        requires
            old(self).wf(),
        ensures
            final(self).wf(),
            fired == old(self).spec_fires(elapsed_ms),
            old(self).spec_ticked(*final(self), elapsed_ms),
    {
        let total = if elapsed_ms > u64::MAX - self.acc_ms {
            u64::MAX
        } else {
            self.acc_ms + elapsed_ms
        };
        if total >= self.interval_ms {
            self.acc_ms = total % self.interval_ms;
            true
        } else {
            self.acc_ms = total;
            false
        }
    }
}

} // verus!
