use vstd::prelude::*;

use crate::config::CELL_SIZE;
use crate::geometry::{opposite_of, Direction, Point};

verus! {

/// Relies on rand::random, which draws a value from the thread-local
/// generator. Nothing is assumed of the value: food placement is correct
/// whatever it is.
pub assume_specification<T>[ rand::random::<T> ]() -> (r: T)
    where
        rand::distributions::Standard: rand::distributions::Distribution<T>,
;

/// How many uniformly drawn cells food placement tries before it falls back to
/// scanning the grid for a free cell.
pub const FOOD_DRAWS: u32 = 64;

/// Points for a piece of food eaten one millisecond after it appeared; eating
/// it after `t` milliseconds gives this divided by `t`.
pub const POINTS_PER_MS: u32 = 100000;

/// Whether the snake is still moving or has run into itself.
#[derive(Clone, Copy, Debug, PartialEq, Eq, Structural)]
pub enum State {
    Play,
    GameOver,
}

/// The whole simulation state of one game.
///
/// Cells of the body may lie one past the last row or column: the wrapping
/// rule of `step_from` sends a head that leaves at the low edge there, and the
/// next step in the same direction takes it back to zero.
pub struct SnakeGame {
    /// Size of the play area in pixels.
    pub width: u32,
    pub height: u32,
    pub state: State,
    /// Size of the grid in cells.
    pub x_cells_max: u32,
    pub y_cells_max: u32,
    pub score: u32,
    pub direction: Direction,
    /// The cells of the snake, head first.
    pub body: Vec<Point>,
    /// The food, or `None` once no cell of the grid is left free.
    pub food: Option<Point>,
    /// Clock value at which the current food appeared.
    pub food_generated_time: u32,
}

/// `p` lies inside the grid proper.
pub open spec fn in_grid(p: Point, x_cells_max: u32, y_cells_max: u32) -> bool {
    p.x < x_cells_max && p.y < y_cells_max
}

/// Every cell of the grid is taken by the body.
pub open spec fn grid_full(body: Seq<Point>, x_cells_max: u32, y_cells_max: u32) -> bool {
    forall|x: u32, y: u32|
        x < x_cells_max && y < y_cells_max ==> #[trigger] body.contains(Point { x, y })
}

/// What a food placement against `body` may give: a free cell of the grid, or
/// nothing when there is none.
pub open spec fn valid_food(
    food: Option<Point>,
    body: Seq<Point>,
    x_cells_max: u32,
    y_cells_max: u32,
) -> bool {
    match food {
        Some(p) => in_grid(p, x_cells_max, y_cells_max) && !body.contains(p),
        None => grid_full(body, x_cells_max, y_cells_max),
    }
}

/// The cell that the random pair `draw` selects.
pub open spec fn drawn_cell(draw: (u32, u32), x_cells_max: u32, y_cells_max: u32) -> Point {
    Point { x: (draw.0 % x_cells_max) as u32, y: (draw.1 % y_cells_max) as u32 }
}

/// The cell of the first pair in `draws` that selects a cell off `body`, if any.
pub open spec fn first_free_draw(
    draws: Seq<(u32, u32)>,
    body: Seq<Point>,
    x_cells_max: u32,
    y_cells_max: u32,
) -> Option<Point>
    decreases draws.len(),
{
    if draws.len() == 0 {
        None
    } else if !body.contains(drawn_cell(draws[0], x_cells_max, y_cells_max)) {
        Some(drawn_cell(draws[0], x_cells_max, y_cells_max))
    } else {
        first_free_draw(draws.drop_first(), body, x_cells_max, y_cells_max)
    }
}

/// `r` is the first free cell of the grid read row by row, or `None` when
/// `body` covers the whole grid.
pub open spec fn is_first_free_cell(
    r: Option<Point>,
    body: Seq<Point>,
    x_cells_max: u32,
    y_cells_max: u32,
) -> bool {
    match r {
        Some(p) => {
            &&& in_grid(p, x_cells_max, y_cells_max)
            &&& !body.contains(p)
            &&& forall|q: Point|
                in_grid(q, x_cells_max, y_cells_max) && row_major_before(q, p)
                    ==> #[trigger] body.contains(q)
        },
        None => grid_full(body, x_cells_max, y_cells_max),
    }
}

/// `q` comes before `p` when the grid is read row by row.
pub open spec fn row_major_before(q: Point, p: Point) -> bool {
    q.y < p.y || (q.y == p.y && q.x < p.x)
}

/// The cell one step from `p` in direction `d`. Stepping below zero lands on
/// `x_cells_max` (or `y_cells_max`), and stepping from that value lands on zero.
pub open spec fn step_from(p: Point, d: Direction, x_cells_max: u32, y_cells_max: u32) -> Point {
    match d {
        Direction::Left => Point {
            x: if p.x == 0 { x_cells_max } else { (p.x - 1) as u32 },
            y: p.y,
        },
        Direction::Right => Point {
            x: if p.x == x_cells_max { 0 } else { (p.x + 1) as u32 },
            y: p.y,
        },
        Direction::Up => Point {
            x: p.x,
            y: if p.y == 0 { y_cells_max } else { (p.y - 1) as u32 },
        },
        Direction::Down => Point {
            x: p.x,
            y: if p.y == y_cells_max { 0 } else { (p.y + 1) as u32 },
        },
    }
}

/// Points for food eaten at `now` that appeared at `spawned`: the reciprocal of
/// the elapsed milliseconds, scaled and truncated. An elapsed time of zero (or
/// a clock that went back) counts as one millisecond.
pub open spec fn food_points(now: u32, spawned: u32) -> u32 {
    if now > spawned {
        (POINTS_PER_MS / (now - spawned) as u32) as u32
    } else {
        POINTS_PER_MS
    }
}

/// The starting body: `length` cells in a row from the centre `(x_center, y_center)`
/// towards growing x, head first.
pub open spec fn initial_body(x_center: u32, y_center: u32, length: u32) -> Seq<Point> {
    Seq::new(length as nat, |i: int| Point { x: (x_center + i) as u32, y: y_center })
}

/// Grid sizes that leave room for a starting snake of `length` cells.
pub open spec fn valid_setup(width: u32, height: u32, length: u32) -> bool {
    &&& width / CELL_SIZE >= 1
    &&& height / CELL_SIZE >= 1
    &&& 1 <= length <= width / CELL_SIZE - width / CELL_SIZE / 2
}

/// `g` is a fresh game on a `width` by `height` pixel area, started at `time`.
pub open spec fn started(g: SnakeGame, width: u32, height: u32, length: u32, time: u32) -> bool {
    &&& g.wf()
    &&& g.width == width
    &&& g.height == height
    &&& g.state == State::Play
    &&& g.score == 0
    &&& g.direction == Direction::Left
    &&& g.body@ == initial_body(g.x_cells_max / 2, g.y_cells_max / 2, length)
    &&& g.food_generated_time == time
    &&& valid_food(g.food, g.body@, g.x_cells_max, g.y_cells_max)
}

/// `post` is what one movement tick at clock value `time` makes of `pre`.
///
/// A finished game stays as it is. Otherwise the head's next cell is computed;
/// if the body holds it, the game is over and nothing else changes. Else the
/// snake moves there: the next cell becomes the head and every segment takes
/// the place of the one before it. When the next cell holds the food, the
/// snake eats it on this tick: it keeps its old tail (it grows by one), the score gains
/// `food_points`, saturating at the largest `u32`, and new food is placed
/// against the grown body.
pub open spec fn advanced(pre: SnakeGame, post: SnakeGame, time: u32) -> bool {
    let next = step_from(pre.body@[0], pre.direction, pre.x_cells_max, pre.y_cells_max);
    &&& post.width == pre.width
    &&& post.height == pre.height
    &&& post.x_cells_max == pre.x_cells_max
    &&& post.y_cells_max == pre.y_cells_max
    &&& post.direction == pre.direction
    &&& if pre.state == State::GameOver || pre.body@.contains(next) {
        &&& post.state == State::GameOver
        &&& post.body@ == pre.body@
        &&& post.score == pre.score
        &&& post.food == pre.food
        &&& post.food_generated_time == pre.food_generated_time
    } else if pre.food == Some(next) {
        &&& post.state == State::Play
        &&& post.body@ == seq![next] + pre.body@
        &&& post.score == pre.score.saturating_add(food_points(time, pre.food_generated_time))
        &&& post.food_generated_time == time
        &&& valid_food(post.food, post.body@, post.x_cells_max, post.y_cells_max)
    } else {
        &&& post.state == State::Play
        &&& post.body@ == seq![next] + pre.body@.drop_last()
        &&& post.score == pre.score
        &&& post.food == pre.food
        &&& post.food_generated_time == pre.food_generated_time
    }
}

/// `post` is `pre` with its direction turned to `d`, unless `d` points back
/// the way the snake came or the game is over.
pub open spec fn turned(pre: SnakeGame, post: SnakeGame, d: Direction) -> bool {
    &&& post.direction == if pre.state == State::Play && d != opposite_of(pre.direction) {
        d
    } else {
        pre.direction
    }
    &&& post.width == pre.width
    &&& post.height == pre.height
    &&& post.x_cells_max == pre.x_cells_max
    &&& post.y_cells_max == pre.y_cells_max
    &&& post.state == pre.state
    &&& post.score == pre.score
    &&& post.body@ == pre.body@
    &&& post.food == pre.food
    &&& post.food_generated_time == pre.food_generated_time
}

impl SnakeGame {
    pub open spec fn wf(&self) -> bool {
        &&& self.x_cells_max == self.width / CELL_SIZE
        &&& self.y_cells_max == self.height / CELL_SIZE
        &&& self.x_cells_max >= 1
        &&& self.y_cells_max >= 1
        &&& self.body@.len() >= 1
        &&& forall|i: int|
            0 <= i < self.body@.len() ==> #[trigger] self.body@[i].x <= self.x_cells_max
                && self.body@[i].y <= self.y_cells_max
        &&& self.food matches Some(p) ==> in_grid(p, self.x_cells_max, self.y_cells_max)
    }

    /// A new game on a `width` by `height` pixel area: a horizontal snake of
    /// `initial_snake_length` cells whose head sits at the centre of the grid,
    /// heading left, with score zero and food on a free cell.
    pub fn new(width: u32, height: u32, initial_snake_length: u32, time: u32) -> (r: SnakeGame)
        requires
            valid_setup(width, height, initial_snake_length),
        ensures
            started(r, width, height, initial_snake_length, time),
    {
        let x_cells_max = width / CELL_SIZE;
        let y_cells_max = height / CELL_SIZE;
        let body = Self::create_snake(x_cells_max / 2, y_cells_max / 2, initial_snake_length);
        let mut snake = SnakeGame {
            width,
            height,
            state: State::Play,
            x_cells_max,
            y_cells_max,
            score: 0,
            direction: Direction::Left,
            body,
            food: None,
            food_generated_time: time,
        };
        snake.food = snake.create_food();
        snake
    }

    /// Replaces the whole state by a new game, as `new` builds it.
    pub fn reset(&mut self, width: u32, height: u32, initial_snake_length: u32, time: u32)
        requires
            valid_setup(width, height, initial_snake_length),
        ensures
            started(*final(self), width, height, initial_snake_length, time),
    {
        *self = SnakeGame::new(width, height, initial_snake_length, time);
    }

    fn create_snake(x_center: u32, y_center: u32, initial_snake_length: u32) -> (r: Vec<Point>)
        requires
            x_center + initial_snake_length <= u32::MAX + 1,
        ensures
            r@ == initial_body(x_center, y_center, initial_snake_length),
    {
        let mut body: Vec<Point> = Vec::new();
        let mut i: u32 = 0;
        while i < initial_snake_length
            invariant
                i <= initial_snake_length,
                x_center + initial_snake_length <= u32::MAX + 1,
                body@ == initial_body(x_center, y_center, i),
            decreases initial_snake_length - i,
        {
            body.push(Point::new(x_center + i, y_center));
            i += 1;
            assert(body@ =~= initial_body(x_center, y_center, i));
        }
        body
    }

    /// The cell the head moves to on the next tick.
    pub fn next_head(&self) -> (r: Point)
        requires
            self.wf(),
        ensures
            r == step_from(self.body@[0], self.direction, self.x_cells_max, self.y_cells_max),
    {
        let head = self.body[0];
        match self.direction {
            Direction::Left => Point::new(
                if head.x == 0 { self.x_cells_max } else { head.x - 1 },
                head.y,
            ),
            Direction::Right => Point::new(
                if head.x == self.x_cells_max { 0 } else { head.x + 1 },
                head.y,
            ),
            Direction::Up => Point::new(
                head.x,
                if head.y == 0 { self.y_cells_max } else { head.y - 1 },
            ),
            Direction::Down => Point::new(
                head.x,
                if head.y == self.y_cells_max { 0 } else { head.y + 1 },
            ),
        }
    }

    /// One movement tick at clock value `time`; see `advanced`.
    pub fn move_snake(&mut self, time: u32)
        requires
            old(self).wf(),
        ensures
            final(self).wf(),
            advanced(*old(self), *final(self), time),
    {
        if self.state == State::GameOver {
            return;
        }
        let next = self.next_head();
        if self.body_contains(next) {
            self.state = State::GameOver;
            return;
        }
        let ate = match self.food {
            Some(f) => f == next,
            None => false,
        };
        let ghost pre = self.body@;
        self.body.insert(0, next);
        assert(self.body@ =~= seq![next] + pre);
        if ate {
            let elapsed: u32 = if time > self.food_generated_time {
                time - self.food_generated_time
            } else {
                1
            };
            self.score = self.score.saturating_add(POINTS_PER_MS / elapsed);
            self.food_generated_time = time;
            self.food = self.create_food();
        } else {
            self.body.pop();
            assert(self.body@ =~= seq![next] + pre.drop_last());
        }
    }

    /// Turns the snake towards `direction` for the next tick. A turn back the
    /// way the snake came is ignored, and so is any turn once the game is over.
    pub fn change_direction(&mut self, direction: Direction)
        requires
            old(self).wf(),
        ensures
            final(self).wf(),
            turned(*old(self), *final(self), direction),
    {
        if self.state == State::GameOver || self.direction.opposite() == direction {
            return;
        }
        self.direction = direction;
    }

    /// Whether the body holds `p`.
    pub fn body_contains(&self, p: Point) -> (r: bool)
        ensures
            r == self.body@.contains(p),
    {
        let mut i: usize = 0;
        while i < self.body.len()
            invariant
                i <= self.body@.len(),
                forall|j: int| 0 <= j < i ==> self.body@[j] != p,
            decreases self.body@.len() - i,
        {
            if self.body[i] == p {
                return true;
            }
            i += 1;
        }
        false
    }

    /// The food that the random values `rx` and `ry` select: the cell
    /// `(rx % x_cells_max, ry % y_cells_max)`, or `None` where the body holds it.
    pub fn candidate_food(&self, rx: u32, ry: u32) -> (r: Option<Point>)
        requires
            self.x_cells_max >= 1,
            self.y_cells_max >= 1,
        ensures
            ({
                let p = Point { x: rx % self.x_cells_max, y: ry % self.y_cells_max };
                r == if self.body@.contains(p) { None } else { Some(p) }
            }),
    {
        let p = Point::new(rx % self.x_cells_max, ry % self.y_cells_max);
        if self.body_contains(p) {
            None
        } else {
            Some(p)
        }
    }

    /// The first free cell of the grid read row by row, or `None` when the
    /// body covers the whole grid.
    pub fn first_free_cell(&self) -> (r: Option<Point>)
        ensures
            is_first_free_cell(r, self.body@, self.x_cells_max, self.y_cells_max),
    {
        let mut y: u32 = 0;
        while y < self.y_cells_max
            invariant
                y <= self.y_cells_max,
                forall|qx: u32, qy: u32|
                    qy < y && qx < self.x_cells_max ==> #[trigger] self.body@.contains(
                        Point { x: qx, y: qy },
                    ),
            decreases self.y_cells_max - y,
        {
            let mut x: u32 = 0;
            while x < self.x_cells_max
                invariant
                    y < self.y_cells_max,
                    x <= self.x_cells_max,
                    forall|qx: u32, qy: u32|
                        qy < y && qx < self.x_cells_max ==> #[trigger] self.body@.contains(
                            Point { x: qx, y: qy },
                        ),
                    forall|qx: u32| qx < x ==> #[trigger] self.body@.contains(Point { x: qx, y }),
                decreases self.x_cells_max - x,
            {
                let p = Point::new(x, y);
                if !self.body_contains(p) {
                    assert forall|q: Point|
                        in_grid(q, self.x_cells_max, self.y_cells_max) && row_major_before(q, p)
                            implies #[trigger] self.body@.contains(q) by {
                        assert(q == Point { x: q.x, y: q.y });
                    }
                    return Some(p);
                }
                x += 1;
            }
            y += 1;
        }
        None
    }

    /// Food placement from the random pairs `draws`: the cell of the first
    /// pair that `candidate_food` accepts, and failing that the first free
    /// cell of the grid read row by row.
    pub fn place_food(&self, draws: &Vec<(u32, u32)>) -> (r: Option<Point>)
        requires
            self.x_cells_max >= 1,
            self.y_cells_max >= 1,
        ensures
            match first_free_draw(draws@, self.body@, self.x_cells_max, self.y_cells_max) {
                Some(p) => r == Some(p),
                None => is_first_free_cell(r, self.body@, self.x_cells_max, self.y_cells_max),
            },
    {
        let mut i: usize = 0;
        assert(draws@.subrange(0, draws@.len() as int) =~= draws@);
        while i < draws.len()
            invariant
                self.x_cells_max >= 1,
                self.y_cells_max >= 1,
                i <= draws@.len(),
                first_free_draw(draws@, self.body@, self.x_cells_max, self.y_cells_max)
                    == first_free_draw(
                    draws@.subrange(i as int, draws@.len() as int),
                    self.body@,
                    self.x_cells_max,
                    self.y_cells_max,
                ),
            decreases draws@.len() - i,
        {
            let rest = Ghost(draws@.subrange(i as int, draws@.len() as int));
            assert(rest@[0] == draws@[i as int]);
            assert(rest@.drop_first() =~= draws@.subrange(i + 1, draws@.len() as int));
            let (rx, ry) = draws[i];
            if let Some(p) = self.candidate_food(rx, ry) {
                return Some(p);
            }
            i += 1;
        }
        assert(draws@.subrange(i as int, draws@.len() as int) =~= Seq::<(u32, u32)>::empty());
        self.first_free_cell()
    }

    /// A free cell for the food, placed by `place_food` from `FOOD_DRAWS`
    /// uniformly drawn pairs; `None` when the body covers the whole grid.
    fn create_food(&self) -> (r: Option<Point>)
        requires
            self.x_cells_max >= 1,
            self.y_cells_max >= 1,
        ensures
            valid_food(r, self.body@, self.x_cells_max, self.y_cells_max),
    {
        let mut draws: Vec<(u32, u32)> = Vec::new();
        let mut n: u32 = 0;
        while n < FOOD_DRAWS
            decreases FOOD_DRAWS - n,
        {
            let rx: u32 = rand::random::<u32>();
            let ry: u32 = rand::random::<u32>();
            draws.push((rx, ry));
            n += 1;
        }
        let r = self.place_food(&draws);
        proof {
            lemma_first_free_draw_is_free(draws@, self.body@, self.x_cells_max, self.y_cells_max);
        }
        r
    }
}

/// A cell that `first_free_draw` picks lies in the grid and off the body.
pub proof fn lemma_first_free_draw_is_free(
    draws: Seq<(u32, u32)>,
    body: Seq<Point>,
    x_cells_max: u32,
    y_cells_max: u32,
)
    requires
        x_cells_max >= 1,
        y_cells_max >= 1,
    ensures
        first_free_draw(draws, body, x_cells_max, y_cells_max) matches Some(p) ==> in_grid(
            p,
            x_cells_max,
            y_cells_max,
        ) && !body.contains(p),
    decreases draws.len(),
{
    if draws.len() > 0 {
        lemma_first_free_draw_is_free(draws.drop_first(), body, x_cells_max, y_cells_max);
    }
}

} // verus!
