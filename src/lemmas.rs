use vstd::prelude::*;

use crate::game::{
    advanced, grid_full, initial_body, started, step_from, turned, valid_setup, SnakeGame, State,
    POINTS_PER_MS,
};
use crate::geometry::{lemma_opposite_involutive, opposite_of, Direction, Point};

verus! {

/// The cell reached from `p` after `n` steps in direction `d` when no edge is crossed.
pub open spec fn straight_from(p: Point, d: Direction, n: int) -> Point {
    match d {
        Direction::Left => Point { x: (p.x - n) as u32, y: p.y },
        Direction::Right => Point { x: (p.x + n) as u32, y: p.y },
        Direction::Up => Point { x: p.x, y: (p.y - n) as u32 },
        Direction::Down => Point { x: p.x, y: (p.y + n) as u32 },
    }
}

/// `n` steps from `p` in direction `d` cross no edge of the grid.
pub open spec fn no_wrap(p: Point, d: Direction, n: int, x_cells_max: u32, y_cells_max: u32) -> bool {
    match d {
        Direction::Left => p.x >= n,
        Direction::Right => p.x + n <= x_cells_max,
        Direction::Up => p.y >= n,
        Direction::Down => p.y + n <= y_cells_max,
    }
}

/// Turning a snake back the way it came changes nothing: neither its direction
/// nor its body.
pub proof fn lemma_reverse_turn_ignored(pre: SnakeGame, post: SnakeGame)
    requires
        turned(pre, post, opposite_of(pre.direction)),
    ensures
        post.direction == pre.direction,
        post.body@ == pre.body@,
{
    lemma_opposite_involutive(pre.direction);
}

/// In a fresh game the food never lies on the snake, and there is food
/// whenever the grid has more than one cell.
pub proof fn lemma_fresh_food_off_body(
    g: SnakeGame,
    width: u32,
    height: u32,
    length: u32,
    time: u32,
)
    requires
        valid_setup(width, height, length),
        started(g, width, height, length, time),
    ensures
        g.food matches Some(p) ==> !g.body@.contains(p),
        g.x_cells_max >= 2 || g.y_cells_max >= 2 ==> g.food is Some,
{
    let xc = g.x_cells_max / 2;
    let yc = g.y_cells_max / 2;
    if g.x_cells_max >= 2 || g.y_cells_max >= 2 {
        let free = if g.x_cells_max >= 2 {
            Point { x: (xc - 1) as u32, y: yc }
        } else {
            Point { x: xc, y: (yc - 1) as u32 }
        };
        if g.body@.contains(free) {
            let i = choose|i: int| 0 <= i < g.body@.len() && g.body@[i] == free;
            assert(g.body@[i] == initial_body(xc, yc, length)[i]);
        }
        assert(!grid_full(g.body@, g.x_cells_max, g.y_cells_max));
    }
}

/// Where the head's next cell is already part of the body, a tick ends the
/// game and leaves body and score as they were.
pub proof fn lemma_collision_ends_game(pre: SnakeGame, post: SnakeGame, time: u32)
    requires
        pre.body@.contains(
            step_from(pre.body@[0], pre.direction, pre.x_cells_max, pre.y_cells_max),
        ),
        advanced(pre, post, time),
    ensures
        post.state == State::GameOver,
        post.body@ == pre.body@,
        post.score == pre.score,
{
}

/// Eating: a tick whose next cell holds the food, and which leaves the game in
/// play, makes the body exactly one cell longer. The score then rises, provided the
/// food appeared before `time`, at most `POINTS_PER_MS` milliseconds earlier
/// (later food is worth nothing), and the score has not reached its ceiling.
pub proof fn lemma_eating_grows(pre: SnakeGame, post: SnakeGame, time: u32)
    requires
        pre.wf(),
        pre.state == State::Play,
        pre.food == Some(step_from(pre.body@[0], pre.direction, pre.x_cells_max, pre.y_cells_max)),
        advanced(pre, post, time),
        post.state == State::Play,
    ensures
        post.body@.len() == pre.body@.len() + 1,
        pre.food_generated_time < time <= pre.food_generated_time + POINTS_PER_MS
            && pre.score < u32::MAX ==> post.score > pre.score,
{
    if pre.food_generated_time < time <= pre.food_generated_time + POINTS_PER_MS {
        let e = (time - pre.food_generated_time) as int;
        assert(POINTS_PER_MS as int / e >= 1) by (nonlinear_arith)
            requires
                1 <= e <= POINTS_PER_MS,
        ;
    }
}

/// Ticks with no turn and no food eaten move the head one cell per tick in a
/// straight line, as long as it crosses no edge, and keep the body's length.
pub proof fn lemma_straight_run(games: Seq<SnakeGame>, times: Seq<u32>)
    requires
        games.len() == times.len() + 1,
        games[0].wf(),
        forall|i: int| 0 <= i < times.len() ==> #[trigger] advanced(games[i], games[i + 1], times[i]),
        forall|i: int| 0 <= i < games.len() ==> #[trigger] games[i].state == State::Play,
        forall|i: int| 0 <= i < times.len() ==> #[trigger] games[i].food != Some(
            step_from(games[i].body@[0], games[i].direction, games[i].x_cells_max, games[i].y_cells_max),
        ),
        no_wrap(games[0].body@[0], games[0].direction, times.len() as int, games[0].x_cells_max, games[0].y_cells_max),
    ensures
        forall|k: int|
            0 <= k < games.len() ==> {
                &&& #[trigger] games[k].direction == games[0].direction
                &&& games[k].body@.len() == games[0].body@.len()
                &&& games[k].body@[0] == straight_from(games[0].body@[0], games[0].direction, k)
            },
{
    assert forall|k: int| 0 <= k < games.len() implies {
        &&& #[trigger] games[k].direction == games[0].direction
        &&& games[k].body@.len() == games[0].body@.len()
        &&& games[k].body@[0] == straight_from(games[0].body@[0], games[0].direction, k)
    } by {
        lemma_straight_prefix(games, times, k);
    }
}

proof fn lemma_straight_prefix(games: Seq<SnakeGame>, times: Seq<u32>, k: int)
    requires
        games.len() == times.len() + 1,
        games[0].wf(),
        forall|i: int| 0 <= i < times.len() ==> #[trigger] advanced(games[i], games[i + 1], times[i]),
        forall|i: int| 0 <= i < games.len() ==> #[trigger] games[i].state == State::Play,
        forall|i: int| 0 <= i < times.len() ==> #[trigger] games[i].food != Some(
            step_from(games[i].body@[0], games[i].direction, games[i].x_cells_max, games[i].y_cells_max),
        ),
        no_wrap(games[0].body@[0], games[0].direction, times.len() as int, games[0].x_cells_max, games[0].y_cells_max),
        0 <= k < games.len(),
    ensures
        games[k].direction == games[0].direction,
        games[k].x_cells_max == games[0].x_cells_max,
        games[k].y_cells_max == games[0].y_cells_max,
        games[k].body@.len() == games[0].body@.len(),
        games[k].body@[0] == straight_from(games[0].body@[0], games[0].direction, k),
    decreases k,
{
    if k > 0 {
        lemma_straight_prefix(games, times, k - 1);
        let i = k - 1;
        assert(advanced(games[i], games[i + 1], times[i]));
    }
}

} // verus!
