//! Snake on a 20x21 grid: swipes steer, the snake steps every 130 ms and
//! wraps around the edges; food within one cell of the head is eaten.

use vstd::prelude::*;
use crate::apps::AppResult;
use crate::apps::rng::{xorshift, rand_below, random_below};
use crate::peripherals::touch::SwipeDirection;
use crate::text::{capped_decimal, push_all, push_capped_decimal};

verus! {

pub const GRID_W: i32 = 20;
pub const GRID_H: i32 = 21;
pub const MAX_SNAKE_LEN: usize = 100;
pub const GAME_SPEED_MS: u32 = 130;

#[derive(Clone, Copy, PartialEq, Eq, Debug, Structural)]
pub enum Direction {
    Up,
    Down,
    Left,
    Right,
    UpLeft,
    UpRight,
    DownLeft,
    DownRight,
}

#[derive(Clone, Copy, PartialEq, Eq, Debug, Structural)]
pub struct Point {
    pub x: i32,
    pub y: i32,
}

pub open spec fn in_grid(p: Point) -> bool {
    0 <= p.x < GRID_W && 0 <= p.y < GRID_H
}

/// One cell in direction `d` (y grows downwards).
pub open spec fn step_point(p: Point, d: Direction) -> Point {
    let (dx, dy) = match d {
        Direction::Up => (0int, -1int),
        Direction::Down => (0, 1),
        Direction::Left => (-1, 0),
        Direction::Right => (1, 0),
        Direction::UpLeft => (-1, -1),
        Direction::UpRight => (1, -1),
        Direction::DownLeft => (-1, 1),
        Direction::DownRight => (1, 1),
    };
    Point { x: (p.x + dx) as i32, y: (p.y + dy) as i32 }
}

/// Leaving the grid on one side re-enters on the other.
pub open spec fn wrap(p: Point) -> Point {
    Point {
        x: if p.x < 0 {
            (GRID_W - 1) as i32
        } else if p.x >= GRID_W {
            0
        } else {
            p.x
        },
        y: if p.y < 0 {
            (GRID_H - 1) as i32
        } else if p.y >= GRID_H {
            0
        } else {
            p.y
        },
    }
}

/// The head reaches food within one cell in both axes (no wrap-around).
pub open spec fn near(a: Point, b: Point) -> bool {
    -1 <= a.x - b.x <= 1 && -1 <= a.y - b.y <= 1
}

/// Steering: swipes pick one of the four straight directions; a tap keeps it.
pub open spec fn steer(cur: Direction, swipe: Option<SwipeDirection>) -> Direction {
    match swipe {
        Some(SwipeDirection::Up) => Direction::Up,
        Some(SwipeDirection::Down) => Direction::Down,
        Some(SwipeDirection::Left) => Direction::Left,
        Some(SwipeDirection::Right) => Direction::Right,
        _ => cur,
    }
}

/// A swipe steers the snake the way the finger moved: at the next step the
/// head goes one row down after a swipe down, one row up after a swipe up, one
/// column left or right after a swipe left or right, re-entering on the far
/// side at an edge, and the other coordinate stays; a tap keeps the direction.
pub proof fn lemma_swipe_steers_head(cur: Direction, h: Point, s: SwipeDirection)
    requires
        in_grid(h),
    ensures
        ({
            let n = wrap(step_point(h, steer(cur, Some(s))));
            &&& s == SwipeDirection::Down ==> n.x == h.x && n.y == (h.y + 1) % (GRID_H as int)
            &&& s == SwipeDirection::Up ==> n.x == h.x && n.y == (h.y + GRID_H - 1) % (GRID_H as int)
            &&& s == SwipeDirection::Left ==> n.y == h.y && n.x == (h.x + GRID_W - 1) % (GRID_W as int)
            &&& s == SwipeDirection::Right ==> n.y == h.y && n.x == (h.x + 1) % (GRID_W as int)
            &&& s == SwipeDirection::Tap ==> steer(cur, Some(s)) == cur
        }),
{
}

pub struct SnakeGame {
    /// Body cells, head first; only the first `len` are in use.
    pub snake: [Point; MAX_SNAKE_LEN],
    pub len: usize,
    pub food: Point,
    pub dir: Direction,
    pub next_dir: Direction,
    pub score: u32,
    /// Milliseconds since the last step.
    pub time_accum: u32,
    pub rng_state: u32,
    pub did_step: bool,
}

impl SnakeGame {
    /// Every cell of the snake and the food are on the grid, and the length
    /// is at least the starting 3 and at most the maximum.
    pub open spec fn wf(&self) -> bool {
        &&& 3 <= self.len <= MAX_SNAKE_LEN
        &&& forall|i: int| 0 <= i < self.len ==> #[trigger] in_grid(self.snake@[i])
        &&& in_grid(self.food)
    }

    /// Food placed at a random cell.
    pub open spec fn spec_food(rng: u32) -> Point {
        Point { x: rand_below(rng, 20) as i32, y: rand_below(xorshift(rng), 21) as i32 }
    }

    /// A game ready to play.
    pub fn new() -> (g: Self)
        ensures
            g.wf(),
            g.len == 3,
            g.snake@[0] == (Point { x: 10, y: 10 }),
            g.snake@[1] == (Point { x: 10, y: 11 }),
            g.snake@[2] == (Point { x: 10, y: 12 }),
            g.dir == Direction::Up && g.next_dir == Direction::Up,
            g.score == 0 && g.time_accum == 0 && !g.did_step,
            g.food == Self::spec_food(12345),
            g.rng_state == xorshift(xorshift(12345)),
    {
        let mut game = SnakeGame {
            snake: [Point { x: 0, y: 0 }; MAX_SNAKE_LEN],
            len: 3,
            food: Point { x: 5, y: 5 },
            dir: Direction::Up,
            next_dir: Direction::Up,
            score: 0,
            time_accum: 0,
            rng_state: 12345,
            did_step: false,
        };
        game.setup();
        game
    }

    /// Draws a number below `max`.
    fn random(&mut self, max: i32) -> (r: i32)
        requires
            max > 0,
        ensures
            r == rand_below(old(self).rng_state, max as u32),
            0 <= r < max,
            final(self).rng_state == xorshift(old(self).rng_state),
            final(self).snake == old(self).snake && final(self).len == old(self).len,
            final(self).food == old(self).food,
            final(self).dir == old(self).dir && final(self).next_dir == old(self).next_dir,
            final(self).score == old(self).score && final(self).time_accum == old(self).time_accum,
            final(self).did_step == old(self).did_step,
    {
        random_below(&mut self.rng_state, max as u32) as i32
    }

    /// Places the food at a random cell.
    fn spawn_food(&mut self)
        ensures
            final(self).food == Self::spec_food(old(self).rng_state),
            final(self).rng_state == xorshift(xorshift(old(self).rng_state)),
            final(self).snake == old(self).snake && final(self).len == old(self).len,
            final(self).dir == old(self).dir && final(self).next_dir == old(self).next_dir,
            final(self).score == old(self).score && final(self).time_accum == old(self).time_accum,
            final(self).did_step == old(self).did_step,
    {
        let x = self.random(GRID_W);
        self.food.x = x;
        let y = self.random(GRID_H);
        self.food.y = y;
    }

    /// Restart: a three-cell snake in the middle heading up, score 0, new food.
    pub fn setup(&mut self)
        ensures
            final(self).wf(),
            final(self).len == 3,
            final(self).snake@[0] == (Point { x: 10, y: 10 }),
            final(self).snake@[1] == (Point { x: 10, y: 11 }),
            final(self).snake@[2] == (Point { x: 10, y: 12 }),
            forall|i: int| 3 <= i < 100 ==> final(self).snake@[i] == old(self).snake@[i],
            final(self).dir == Direction::Up && final(self).next_dir == Direction::Up,
            final(self).score == 0 && final(self).time_accum == 0,
            final(self).did_step == old(self).did_step,
            final(self).food == Self::spec_food(old(self).rng_state),
            final(self).rng_state == xorshift(xorshift(old(self).rng_state)),
    {
        self.len = 3;
        self.snake[0] = Point { x: GRID_W / 2, y: GRID_H / 2 };
        self.snake[1] = Point { x: GRID_W / 2, y: GRID_H / 2 + 1 };
        self.snake[2] = Point { x: GRID_W / 2, y: GRID_H / 2 + 2 };
        self.dir = Direction::Up;
        self.next_dir = Direction::Up;
        self.score = 0;
        self.time_accum = 0;
        self.spawn_food();
    }

    pub fn score(&self) -> (r: u32)
        ensures
            r == self.score,
    {
        self.score
    }

    pub fn stepped(&self) -> (r: bool)
        ensures
            r == self.did_step,
    {
        self.did_step
    }

    /// The next frame steps the snake and its new head reaches the food.
    pub open spec fn frame_eats(&self, swipe: Option<SwipeDirection>, dt: int) -> bool {
        &&& self.time_accum + dt >= GAME_SPEED_MS
        &&& near(wrap(step_point(self.snake@[0], steer(self.next_dir, swipe))), self.food)
    }

    /// Whether the counters of the next frame fit their 32-bit fields: the
    /// timer on every frame, the score on a frame where the snake eats.
    pub fn frame_fits_check(&self, swipe: Option<SwipeDirection>, dt_ms: u32) -> (b: bool)
        requires
            self.wf(),
        ensures
            b == (self.time_accum + dt_ms <= u32::MAX && (self.frame_eats(swipe, dt_ms as int) ==> self.score
                + 10 <= u32::MAX)),
    {
        if self.time_accum as u64 + dt_ms as u64 > u32::MAX as u64 {
            return false;
        }
        if self.time_accum + dt_ms < GAME_SPEED_MS {
            return true;
        }
        let nd = match swipe {
            Some(SwipeDirection::Up) => Direction::Up,
            Some(SwipeDirection::Down) => Direction::Down,
            Some(SwipeDirection::Left) => Direction::Left,
            Some(SwipeDirection::Right) => Direction::Right,
            _ => self.next_dir,
        };
        let head = Self::next_head(self.snake[0], nd);
        let dx = head.x - self.food.x;
        let dy = head.y - self.food.y;
        if -1 <= dx && dx <= 1 && -1 <= dy && dy <= 1 {
            self.score as u64 + 10 <= u32::MAX as u64
        } else {
            true
        }
    }

    fn handle_swipe(&mut self, dir: SwipeDirection)
        ensures
            final(self).next_dir == steer(old(self).next_dir, Some(dir)),
            final(self).snake == old(self).snake && final(self).len == old(self).len,
            final(self).food == old(self).food && final(self).dir == old(self).dir,
            final(self).score == old(self).score && final(self).time_accum == old(self).time_accum,
            final(self).did_step == old(self).did_step && final(self).rng_state == old(self).rng_state,
    {
        self.next_dir = match dir {
            SwipeDirection::Up => Direction::Up,
            SwipeDirection::Down => Direction::Down,
            SwipeDirection::Left => Direction::Left,
            SwipeDirection::Right => Direction::Right,
            _ => self.next_dir,
        };
    }

    /// Where the head goes next, wrapped.
    fn next_head(head: Point, dir: Direction) -> (r: Point)
        requires
            in_grid(head),
        ensures
            r == wrap(step_point(head, dir)),
            in_grid(r),
    {
        let mut h = head;
        match dir {
            Direction::Up => h.y = h.y - 1,
            Direction::Down => h.y = h.y + 1,
            Direction::Left => h.x = h.x - 1,
            Direction::Right => h.x = h.x + 1,
            Direction::UpLeft => {
                h.x = h.x - 1;
                h.y = h.y - 1;
            },
            Direction::UpRight => {
                h.x = h.x + 1;
                h.y = h.y - 1;
            },
            Direction::DownLeft => {
                h.x = h.x - 1;
                h.y = h.y + 1;
            },
            Direction::DownRight => {
                h.x = h.x + 1;
                h.y = h.y + 1;
            },
        }
        if h.x < 0 {
            h.x = GRID_W - 1;
        } else if h.x >= GRID_W {
            h.x = 0;
        }
        if h.y < 0 {
            h.y = GRID_H - 1;
        } else if h.y >= GRID_H {
            h.y = 0;
        }
        h
    }

    /// One frame. The swipe steers; every 130 ms of accumulated time the snake
    /// steps once: the head moves (wrapping), food near the head is eaten
    /// (growing the snake up to 100 cells, +10 points, new food), and every
    /// body cell takes the place of the one before it.
    pub fn update(&mut self, swipe: Option<SwipeDirection>, dt_ms: u32) -> (r: AppResult)
        requires
            old(self).wf(),
            old(self).time_accum + dt_ms <= u32::MAX,
            old(self).frame_eats(swipe, dt_ms as int) ==> old(self).score + 10 <= u32::MAX,
        ensures
            r == AppResult::Continue,
            final(self).wf(),
            final(self).next_dir == steer(old(self).next_dir, swipe),
            ({
                let t = old(self).time_accum + dt_ms;
                let nd = steer(old(self).next_dir, swipe);
                if t < GAME_SPEED_MS {
                    &&& !final(self).did_step
                    &&& final(self).time_accum == t
                    &&& final(self).snake == old(self).snake && final(self).len == old(self).len
                    &&& final(self).food == old(self).food && final(self).dir == old(self).dir
                    &&& final(self).score == old(self).score
                    &&& final(self).rng_state == old(self).rng_state
                } else {
                    let head = wrap(step_point(old(self).snake@[0], nd));
                    let eats = near(head, old(self).food);
                    let new_len = if eats && old(self).len < MAX_SNAKE_LEN {
                        old(self).len + 1
                    } else {
                        old(self).len as int
                    };
                    &&& final(self).did_step
                    &&& final(self).time_accum == t - GAME_SPEED_MS
                    &&& final(self).dir == nd
                    &&& final(self).len == new_len
                    &&& final(self).snake@[0] == head
                    &&& forall|i: int| 1 <= i < new_len ==> #[trigger] final(self).snake@[i] == old(self).snake@[i - 1]
                    &&& forall|i: int| new_len <= i < MAX_SNAKE_LEN ==> #[trigger] final(self).snake@[i] == old(self).snake@[i]
                    &&& eats ==> final(self).score == old(self).score + 10 && final(self).food == Self::spec_food(old(self).rng_state)
                        && final(self).rng_state == xorshift(xorshift(old(self).rng_state))
                    &&& !eats ==> final(self).score == old(self).score && final(self).food == old(self).food
                        && final(self).rng_state == old(self).rng_state
                }
            }),
    {
        if let Some(s) = swipe {
            self.handle_swipe(s);
        }
        self.time_accum = self.time_accum + dt_ms;
        self.did_step = false;
        if self.time_accum >= GAME_SPEED_MS {
            self.did_step = true;
            self.time_accum = self.time_accum - GAME_SPEED_MS;
            self.dir = self.next_dir;
            let head = Self::next_head(self.snake[0], self.dir);
            let dx = head.x - self.food.x;
            let dy = head.y - self.food.y;
            let adx = if dx < 0 { -dx } else { dx };
            let ady = if dy < 0 { -dy } else { dy };
            if adx <= 1 && ady <= 1 {
                if self.len < MAX_SNAKE_LEN {
                    self.len = self.len + 1;
                }
                self.score = self.score + 10;
                self.spawn_food();
            }
            let ghost body = self.snake;
            let ghost pre = *self;
            let mut i: usize = self.len - 1;
            while i > 0
                invariant
                    0 <= i < self.len <= MAX_SNAKE_LEN,
                    self.len == pre.len && self.food == pre.food && self.dir == pre.dir,
                    self.next_dir == pre.next_dir && self.score == pre.score,
                    self.time_accum == pre.time_accum && self.rng_state == pre.rng_state,
                    self.did_step == pre.did_step,
                    in_grid(self.food),
                    forall|j: int| i < j < self.len ==> #[trigger] self.snake@[j] == body@[j - 1],
                    forall|j: int| 0 <= j <= i ==> #[trigger] self.snake@[j] == body@[j],
                    forall|j: int| self.len <= j < MAX_SNAKE_LEN ==> #[trigger] self.snake@[j] == body@[j],
                decreases i,
            {
                self.snake[i] = self.snake[i - 1];
                i = i - 1;
            }
            self.snake[0] = head;
        }
        AppResult::Continue
    }
}

/// The score label: `SCORE: ` and the score with at most four digits.
pub fn format_score(score: u32) -> (r: Vec<u8>)
    ensures
        r@ == seq![83u8, 67, 79, 82, 69, 58, 32] + capped_decimal(score as nat, 4),
{
    let mut out = Vec::new();
    let prefix: [u8; 7] = [83u8, 67, 79, 82, 69, 58, 32];
    push_all(&mut out, prefix.as_slice());
    push_capped_decimal(&mut out, score, 4);
    assert(prefix@ =~= seq![83u8, 67, 79, 82, 69, 58, 32]);
    out
}

} // verus!
