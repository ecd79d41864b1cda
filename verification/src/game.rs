use vstd::prelude::*;

use crate::config::Config;
use crate::direction::Direction;
use crate::entity::Entity;
use crate::geometry::{overlaps, Position, Rect};
use crate::rng;
use crate::snake::{spec_seq_collision, spec_seq_self_collision, Snake};

verus! {

/// How many random draws food placement makes before it falls back to
/// scanning the grid for a free cell.
pub const FOOD_RETRY_LIMIT: u32 = 1000;

/// The grid cell of the viewport at column `jx` and row `jy`.
spec fn spec_cell_rect(vp: Rect, e: u32, jx: int, jy: int) -> Rect {
    Rect {
        left: (vp.left + jx * e) as u32,
        top: (vp.top + jy * e) as u32,
        width: e,
        height: e,
    }
}

/// The game states: a round starts paused, runs while playing, and ends in
/// game over until a directional key revives it.
#[derive(Clone, Copy, Debug, PartialEq, Eq, Structural)]
pub enum State {
    Pause,
    Play,
    GameOver,
}

/// The keys the game reacts to; any other key is `Other`.
#[derive(Clone, Copy, Debug, PartialEq, Eq, Structural)]
pub enum Key {
    A,
    W,
    D,
    S,
    P,
    Other,
}

/// The movement direction a key requests, if any.
pub open spec fn spec_key_direction(key: Key) -> Option<Direction> {
    match key {
        Key::A => Some(Direction::Left),
        Key::W => Some(Direction::Up),
        Key::D => Some(Direction::Right),
        Key::S => Some(Direction::Down),
        _ => None,
    }
}

/// Whether `p` sits on the grid of `e`-sized cells anchored at the viewport
/// origin.
pub open spec fn spec_grid_aligned(p: Position, viewport: Rect, e: u32) -> bool {
    &&& (p.x - viewport.left) % (e as int) == 0
    &&& (p.y - viewport.top) % (e as int) == 0
}

/// The number of decimal digits of `n` (one for values below ten).
pub open spec fn spec_digit_count(n: int) -> int
    decreases n,
{
    if n < 10 {
        1
    } else {
        1 + spec_digit_count(n / 10)
    }
}

proof fn lemma_digit_count_at_least_one(n: int)
    ensures
        1 <= spec_digit_count(n),
    decreases n,
{
    if n >= 10 {
        lemma_digit_count_at_least_one(n / 10);
    }
}

proof fn lemma_digit_count_monotonic(a: int, b: int)
    requires
        0 <= a <= b,
    ensures
        spec_digit_count(a) <= spec_digit_count(b),
    decreases b,
{
    if b >= 10 {
        if a >= 10 {
            vstd::arithmetic::div_mod::lemma_div_is_ordered(a, b, 10);
            lemma_digit_count_monotonic(a / 10, b / 10);
        } else {
            lemma_digit_count_at_least_one(b);
        }
    }
}

proof fn lemma_digit_count_u32(n: int)
    requires
        0 <= n <= u32::MAX,
    ensures
        1 <= spec_digit_count(n) <= 10,
{
    lemma_digit_count_at_least_one(n);
    lemma_digit_count_monotonic(n, u32::MAX as int);
    assert(spec_digit_count(u32::MAX as int) == 10) by {
        reveal_with_fuel(spec_digit_count, 11);
    }
}

proof fn lemma_mod_le_self(x: int, e: int)
    requires
        0 <= x,
        0 < e,
    ensures
        0 <= x % e <= x,
{
    if x < e {
        vstd::arithmetic::div_mod::lemma_small_mod(x as nat, e as nat);
    } else {
        vstd::arithmetic::div_mod::lemma_mod_bound(x, e);
    }
}

proof fn lemma_truncation_aligned(v: int, e: int)
    requires
        0 <= v,
        0 < e,
    ensures
        0 <= v - v % e <= v,
        (v - v % e) % e == 0,
{
    lemma_mod_le_self(v, e);
    vstd::arithmetic::div_mod::lemma_fundamental_div_mod(v, e);
    assert(v - v % e == (v / e) * e);
    vstd::arithmetic::div_mod::lemma_mod_multiples_basic(v / e, e);
}

/// The number of decimal digits of `n`.
pub fn digit_count(n: u32) -> (c: u32)
    ensures
        c == spec_digit_count(n as int),
{
    proof {
        lemma_digit_count_u32(n as int);
    }
    let mut count: u32 = 1;
    let mut m: u32 = n;
    while m / 10 != 0
        invariant
            1 <= count,
            spec_digit_count(m as int) + count == spec_digit_count(n as int) + 1,
            count <= spec_digit_count(n as int),
            spec_digit_count(n as int) <= 10,
        decreases m,
    {
        count = count + 1;
        m = m / 10;
        proof {
            lemma_digit_count_at_least_one(m as int);
        }
    }
    count
}

/// The x position that right-aligns the score text: the window width minus
/// one character width per decimal digit of the score.
pub fn score_text_x(window_width: u32, text_size: u32, score: u32) -> (x: u32)
    requires
        spec_digit_count(score as int) * text_size <= window_width,
    ensures
        x == window_width - spec_digit_count(score as int) * text_size,
{
    let offset = digit_count(score) * text_size;
    window_width - offset
}

/// The configuration admits a playable field: the rounded window leaves a
/// viewport at least one entity wide and one entity high.
pub open spec fn spec_config_playable(c: Config) -> bool {
    &&& 0 < c.entity_size
    &&& 3 * c.entity_size <= c.window_width - (c.window_width as int) % (c.entity_size as int)
    &&& 4 * c.entity_size <= c.window_height - (c.window_height as int) % (c.entity_size as int)
}

/// Whether the configuration leaves room for a playable viewport.
pub fn config_playable(config: &Config) -> (b: bool)
    ensures
        b == spec_config_playable(*config),
{
    if config.entity_size == 0 {
        return false;
    }
    proof {
        lemma_mod_le_self(config.window_width as int, config.entity_size as int);
        lemma_mod_le_self(config.window_height as int, config.entity_size as int);
    }
    let e = config.entity_size as u64;
    let w = config.window_width as u64 - config.window_width as u64 % e;
    let h = config.window_height as u64 - config.window_height as u64 % e;
    3 * e <= w && 4 * e <= h
}

/// The game core: the snake, the food, the playing field and the score,
/// plus the state machine that pauses, runs and ends a round.
pub struct SnakeGame {
    pub player: Snake,
    pub food: Entity,
    pub entity_size: u32,
    pub viewport: Rect,
    pub score: u32,
    pub state: State,
}

impl SnakeGame {
    /// A well-formed game: the snake is well formed, fits the viewport cell
    /// size, and lies inside the viewport; the food has the common entity
    /// size.
    pub open spec fn wf(self) -> bool {
        &&& self.player.wf()
        &&& self.viewport.spec_valid_viewport()
        &&& self.player.segments@[0].size == self.entity_size
        &&& self.entity_size <= self.viewport.width
        &&& self.entity_size <= self.viewport.height
        &&& forall|i: int|
            0 <= i < self.player.segments@.len() ==> self.viewport.spec_contains(
                (#[trigger] self.player.segments@[i]).position,
            )
        &&& self.food.size == self.entity_size
    }

    /// The window size actually used: the configured size rounded down to a
    /// multiple of the entity size.
    pub fn window_size(config: &Config) -> (s: (u32, u32))
        requires
            0 < config.entity_size,
        ensures
            s.0 == config.window_width - (config.window_width as int) % (
            config.entity_size as int),
            s.1 == config.window_height - (config.window_height as int) % (
            config.entity_size as int),
    {
        proof {
            lemma_mod_le_self(config.window_width as int, config.entity_size as int);
            lemma_mod_le_self(config.window_height as int, config.entity_size as int);
        }
        let w = config.window_width - config.window_width % config.entity_size;
        let h = config.window_height - config.window_height % config.entity_size;
        (w, h)
    }

    /// A random position inside the viewport, truncated to the corner of the
    /// grid cell it falls in (the grid is anchored at the viewport origin
    /// with `entity_size`-sized cells).
    pub fn random_position(viewport: Rect, entity_size: u32) -> (p: Position)
        requires
            viewport.spec_valid_viewport(),
            0 < entity_size,
        ensures
            viewport.spec_contains(p),
            spec_grid_aligned(p, viewport, entity_size),
    {
        let dx = rng::random_below(viewport.width);
        proof {
            lemma_truncation_aligned(dx as int, entity_size as int);
        }
        let dxa = dx - dx % entity_size;
        let x = viewport.left + dxa;
        let dy = rng::random_below(viewport.height);
        proof {
            lemma_truncation_aligned(dy as int, entity_size as int);
        }
        let dya = dy - dy % entity_size;
        let y = viewport.top + dya;
        Position { x, y }
    }

    /// Creates a new game from the configuration: the window is rounded down
    /// to whole grid cells, the viewport excludes a one-cell margin on the
    /// sides and bottom and a two-cell header strip at the top, and the snake
    /// and the food start on random grid cells, the food clear of the snake.
    pub fn new(config: &Config) -> (g: SnakeGame)
        requires
            spec_config_playable(*config),
        ensures
            g.wf(),
            g.state is Pause,
            g.score == 0,
            g.entity_size == config.entity_size,
            g.viewport.left == config.entity_size,
            g.viewport.top == 2 * config.entity_size,
            g.viewport.width == (config.window_width - (config.window_width as int) % (
            config.entity_size as int)) - 2 * config.entity_size,
            g.viewport.height == (config.window_height - (config.window_height as int) % (
            config.entity_size as int)) - 3 * config.entity_size,
            g.player.segments@.len() == 1,
            g.player.direction is None,
            g.player.next_direction is None,
            g.player.segments@[0].size == config.entity_size,
            g.player.segments@[0].color == config.snake_color,
            spec_grid_aligned(g.player.segments@[0].position, g.viewport, config.entity_size),
            g.food.size == config.entity_size,
            g.food.color == config.food_color,
            g.viewport.spec_contains(g.food.position),
            spec_grid_aligned(g.food.position, g.viewport, config.entity_size),
            ({
                ||| !spec_seq_collision(g.player.segments@, g.food.spec_area(), 0)
                ||| forall|p: Position|
                    spec_grid_aligned(p, g.viewport, config.entity_size)
                        && g.viewport.spec_contains(p) ==> spec_seq_collision(
                        g.player.segments@,
                        (Rect {
                            left: p.x,
                            top: p.y,
                            width: config.entity_size,
                            height: config.entity_size,
                        }),
                        0,
                    )
            }),
    {
        let (w, h) = Self::window_size(config);
        let e = config.entity_size;
        let viewport = Rect { left: e, top: 2 * e, width: w - 2 * e, height: h - 3 * e };
        let player_position = Self::random_position(viewport, e);
        let player = Snake::new(player_position, e, config.snake_color);
        let food_position = match Self::place_food(&player, viewport, e) {
            Some(position) => position,
            // the snake covers the whole grid (a one-cell viewport)
            None => player_position,
        };
        let food = Entity::new(e, food_position, config.food_color);
        SnakeGame { player, food, entity_size: e, viewport, score: 0, state: State::Pause }
    }

    /// Picks a grid cell for the food that is clear of the snake: random
    /// cells are drawn first, and if a bounded number of draws all land on
    /// the snake, the grid is scanned cell by cell. `None` comes back only
    /// when every grid cell of the viewport collides with the snake.
    pub fn place_food(player: &Snake, viewport: Rect, entity_size: u32) -> (r: Option<Position>)
        requires
            viewport.spec_valid_viewport(),
            0 < entity_size,
        ensures
            match r {
                Some(p) => {
                    &&& viewport.spec_contains(p)
                    &&& spec_grid_aligned(p, viewport, entity_size)
                    &&& !spec_seq_collision(
                        player.segments@,
                        (Rect { left: p.x, top: p.y, width: entity_size, height: entity_size }),
                        0,
                    )
                },
                None => forall|p: Position|
                    spec_grid_aligned(p, viewport, entity_size) && viewport.spec_contains(p)
                        ==> spec_seq_collision(
                        player.segments@,
                        (Rect { left: p.x, top: p.y, width: entity_size, height: entity_size }),
                        0,
                    ),
            },
    {
        let mut tries: u32 = 0;
        while tries < FOOD_RETRY_LIMIT
            invariant
                viewport.spec_valid_viewport(),
                0 < entity_size,
            decreases FOOD_RETRY_LIMIT - tries,
        {
            let candidate = Self::random_position(viewport, entity_size);
            let area = Rect {
                left: candidate.x,
                top: candidate.y,
                width: entity_size,
                height: entity_size,
            };
            if !player.collision(&area, 0) {
                return Some(candidate);
            }
            tries = tries + 1;
        }
        // every draw landed on the snake: scan the grid for a free cell
        let e64 = entity_size as u64;
        let mut ky: u32 = 0;
        while (ky as u64) * e64 < viewport.height as u64
            invariant
                viewport.spec_valid_viewport(),
                0 < entity_size,
                e64 == entity_size as u64,
                (ky as int) * (entity_size as int) <= viewport.height + entity_size,
                ky <= viewport.height,
                forall|jx: int, jy: int|
                    0 <= jx && 0 <= jy < ky && jx * entity_size < viewport.width && jy
                        * entity_size < viewport.height ==> spec_seq_collision(
                        player.segments@,
                        spec_cell_rect(viewport, entity_size, jx, jy),
                        0,
                    ),
            decreases viewport.height as int + entity_size as int - (ky as int) * (
            entity_size as int),
        {
            let mut kx: u32 = 0;
            while (kx as u64) * e64 < viewport.width as u64
                invariant
                    viewport.spec_valid_viewport(),
                    0 < entity_size,
                    e64 == entity_size as u64,
                    (ky as u64) * e64 < viewport.height as u64,
                    ky <= viewport.height,
                    (kx as int) * (entity_size as int) <= viewport.width + entity_size,
                    kx <= viewport.width,
                    forall|jx: int, jy: int|
                        0 <= jx && 0 <= jy < ky && jx * entity_size < viewport.width && jy
                            * entity_size < viewport.height ==> spec_seq_collision(
                            player.segments@,
                            spec_cell_rect(viewport, entity_size, jx, jy),
                            0,
                        ),
                    forall|jx: int|
                        0 <= jx < kx ==> spec_seq_collision(
                            player.segments@,
                            spec_cell_rect(viewport, entity_size, jx, ky as int),
                            0,
                        ),
                decreases viewport.width as int + entity_size as int - (kx as int) * (
                entity_size as int),
            {
                let x = viewport.left + kx * entity_size;
                let y = viewport.top + ky * entity_size;
                let cell = Rect { left: x, top: y, width: entity_size, height: entity_size };
                if !player.collision(&cell, 0) {
                    proof {
                        vstd::arithmetic::div_mod::lemma_mod_multiples_basic(
                            kx as int,
                            entity_size as int,
                        );
                        vstd::arithmetic::div_mod::lemma_mod_multiples_basic(
                            ky as int,
                            entity_size as int,
                        );
                    }
                    return Some(Position { x, y });
                }
                proof {
                    assert((kx as int + 1) * (entity_size as int) == kx as int * (
                    entity_size as int) + entity_size as int) by (nonlinear_arith);
                    assert(kx as int <= kx as int * (entity_size as int)) by (nonlinear_arith)
                        requires
                            1 <= entity_size as int,
                            0 <= kx as int,
                    ;
                }
                kx = kx + 1;
            }
            proof {
                assert forall|jx: int|
                    0 <= jx && jx * entity_size < viewport.width implies spec_seq_collision(
                    player.segments@,
                    spec_cell_rect(viewport, entity_size, jx, ky as int),
                    0,
                ) by {
                    if jx >= kx {
                        vstd::arithmetic::mul::lemma_mul_inequality(
                            kx as int,
                            jx,
                            entity_size as int,
                        );
                    }
                }
                assert((ky as int + 1) * (entity_size as int) == ky as int * (
                entity_size as int) + entity_size as int) by (nonlinear_arith);
                assert(ky as int <= ky as int * (entity_size as int)) by (nonlinear_arith)
                    requires
                        1 <= entity_size as int,
                        0 <= ky as int,
                ;
            }
            ky = ky + 1;
        }
        proof {
            assert forall|p: Position|
                spec_grid_aligned(p, viewport, entity_size) && viewport.spec_contains(p)
                    implies spec_seq_collision(
                player.segments@,
                (Rect { left: p.x, top: p.y, width: entity_size, height: entity_size }),
                0,
            ) by {
                let e = entity_size as int;
                let jx = (p.x - viewport.left) / e;
                let jy = (p.y - viewport.top) / e;
                vstd::arithmetic::div_mod::lemma_fundamental_div_mod(p.x - viewport.left, e);
                vstd::arithmetic::div_mod::lemma_fundamental_div_mod(p.y - viewport.top, e);
                vstd::arithmetic::div_mod::lemma_div_pos_is_pos(p.x - viewport.left, e);
                vstd::arithmetic::div_mod::lemma_div_pos_is_pos(p.y - viewport.top, e);
                vstd::arithmetic::mul::lemma_mul_is_commutative(jx, e);
                vstd::arithmetic::mul::lemma_mul_is_commutative(jy, e);
                assert(jx * e == p.x - viewport.left);
                assert(jy * e == p.y - viewport.top);
                if jy >= ky {
                    vstd::arithmetic::mul::lemma_mul_inequality(ky as int, jy, e);
                }
                assert(spec_seq_collision(
                    player.segments@,
                    spec_cell_rect(viewport, entity_size, jx, jy),
                    0,
                ));
                assert(spec_cell_rect(viewport, entity_size, jx, jy) == (Rect {
                    left: p.x,
                    top: p.y,
                    width: entity_size,
                    height: entity_size,
                }));
            }
        }
        None
    }

    /// Ends the round: the game state becomes GameOver, everything else is
    /// untouched.
    pub fn game_over(&mut self)
        ensures
            *final(self) == (SnakeGame { state: State::GameOver, ..*old(self) }),
    {
        self.state = State::GameOver;
    }

    /// Sets the score; everything else is untouched.
    pub fn set_score(&mut self, value: u32)
        ensures
            *final(self) == (SnakeGame { score: value, ..*old(self) }),
    {
        self.score = value;
    }

    /// One simulation step. Paused or ended games do not change at all.
    /// Otherwise the snake advances; on self-collision the round ends; on
    /// reaching the food the snake grows, the score rises by ten, and the
    /// food moves to a grid cell clear of the snake (it stays put only when
    /// the snake covers every cell of the grid).
    pub fn update(&mut self)
        requires
            old(self).wf(),
            old(self).state is Play ==> old(self).score + 10 <= u32::MAX,
        ensures
            final(self).wf(),
            final(self).viewport == old(self).viewport,
            final(self).entity_size == old(self).entity_size,
            (old(self).state is Pause || old(self).state is GameOver) ==> *final(self) == *old(
                self,
            ),
            old(self).state is Play ==> ({
                let adv = old(self).player.spec_advanced_segments(old(self).viewport);
                &&& final(self).player.direction == old(self).player.next_direction
                &&& final(self).player.next_direction == old(self).player.next_direction
                &&& if spec_seq_self_collision(adv) {
                    &&& final(self).state is GameOver
                    &&& final(self).player.segments@ =~= adv
                    &&& final(self).food == old(self).food
                    &&& final(self).score == old(self).score
                } else if overlaps(adv[0].spec_area(), old(self).food.spec_area()) {
                    &&& final(self).state is Play
                    &&& final(self).player.segments@ =~= adv.push(
                        (Entity { position: adv[0].position, size: adv[0].size, color: adv[0].color }),
                    )
                    &&& final(self).score == old(self).score + 10
                    &&& final(self).food.size == old(self).food.size
                    &&& final(self).food.color == old(self).food.color
                    &&& ({
                        ||| {
                            &&& final(self).viewport.spec_contains(final(self).food.position)
                            &&& spec_grid_aligned(
                                final(self).food.position,
                                old(self).viewport,
                                old(self).entity_size,
                            )
                            &&& !spec_seq_collision(
                                final(self).player.segments@,
                                final(self).food.spec_area(),
                                0,
                            )
                        }
                        ||| {
                            &&& final(self).food == old(self).food
                            &&& forall|p: Position|
                                spec_grid_aligned(p, old(self).viewport, old(self).entity_size)
                                    && old(self).viewport.spec_contains(p)
                                    ==> spec_seq_collision(
                                    final(self).player.segments@,
                                    (Rect {
                                        left: p.x,
                                        top: p.y,
                                        width: old(self).entity_size,
                                        height: old(self).entity_size,
                                    }),
                                    0,
                                )
                        }
                    })
                } else {
                    &&& final(self).state is Play
                    &&& final(self).player.segments@ =~= adv
                    &&& final(self).food == old(self).food
                    &&& final(self).score == old(self).score
                }
            }),
    {
        match self.state {
            State::Pause | State::GameOver => {
                return;
            },
            _ => {},
        }
        let vp = self.viewport;
        self.player.advance(vp);
        if self.player.self_collision() {
            self.game_over();
        } else {
            let head_area = self.player.area();
            let food_area = self.food.area();
            if head_area.intersects(&food_area) {
                self.player.grow();
                match Self::place_food(&self.player, vp, self.entity_size) {
                    Some(position) => self.food.set_position(position),
                    None => {},
                }
                let new_score = self.score + 10;
                self.set_score(new_score);
            }
        }
    }

    /// Reacts to one key press. A directional key always puts the game in
    /// Play; it also arms the next direction, except that a turn into the
    /// exact opposite of the current direction is ignored while the snake is
    /// longer than one segment. If the round had ended, the snake and the
    /// score are first reset. The pause key pauses a running game and clears
    /// the pending direction; every other key does nothing.
    pub fn handle_input(&mut self, key: Key)
        requires
            old(self).wf(),
        ensures
            final(self).wf(),
            final(self).viewport == old(self).viewport,
            final(self).entity_size == old(self).entity_size,
            final(self).food == old(self).food,
            spec_key_direction(key) is None && key != Key::P ==> *final(self) == *old(self),
            key == Key::P ==> if old(self).state is Play {
                &&& final(self).state is Pause
                &&& final(self).player.next_direction is None
                &&& final(self).player.direction == old(self).player.direction
                &&& final(self).player.segments@ == old(self).player.segments@
                &&& final(self).score == old(self).score
            } else {
                *final(self) == *old(self)
            },
            (match spec_key_direction(key) {
                Some(d) => {
                    &&& final(self).state is Play
                    &&& old(self).state is GameOver ==> {
                        &&& final(self).score == 0
                        &&& final(self).player.segments@ =~= seq![old(self).player.segments@[0]]
                        &&& final(self).player.direction is None
                        &&& final(self).player.next_direction == Some(d)
                    }
                    &&& !(old(self).state is GameOver) ==> {
                        &&& final(self).player.direction == old(self).player.direction
                        &&& final(self).player.segments@ == old(self).player.segments@
                        &&& final(self).score == old(self).score
                        &&& final(self).player.next_direction == if old(
                            self,
                        ).player.segments@.len() == 1 || old(self).player.direction != Some(
                            d.spec_opposite(),
                        ) {
                            Some(d)
                        } else {
                            // a rejected reversal leaves the pending
                            // direction unmodified
                            old(self).player.next_direction
                        }
                    }
                },
                None => true,
            }),
    {
        let key_direction = match key {
            Key::A => Some(Direction::Left),
            Key::W => Some(Direction::Up),
            Key::D => Some(Direction::Right),
            Key::S => Some(Direction::Down),
            _ => None,
        };
        match key_direction {
            Some(direction) => {
                // revive the game first if the round had ended
                if matches!(self.state, State::GameOver) {
                    self.player.reset();
                    self.set_score(0);
                }
                // check whether going backwards is allowed
                if self.player.segments.len() == 1 || !direction.is_opposite_to(
                    &self.player.direction,
                ) {
                    self.player.next_direction = Some(direction);
                }
                // any directional key resumes play
                self.state = State::Play;
            },
            None => {
                if matches!(key, Key::P) {
                    if matches!(self.state, State::Play) {
                        // pause the game
                        self.player.next_direction = None;
                        self.state = State::Pause;
                    }
                }
            },
        }
    }
}

} // verus!
