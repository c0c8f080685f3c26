use vstd::prelude::*;
use crate::config::Config;

verus! {

/// A point or a displacement on the integer pixel grid; `y` grows downwards.
#[derive(Clone, Copy, Debug, PartialEq, Eq, Structural)]
pub struct Vec2 {
    pub x: i64,
    pub y: i64,
}

/// One player's paddle: the top-left corner of its rectangle and the player's score.
#[derive(Clone, Copy, Debug, PartialEq, Eq, Structural)]
pub struct Paddle {
    pub pos: Vec2,
    pub score: u64,
}

/// A running match: its geometry, both paddles and the ball.
#[derive(Clone, Copy, Debug, PartialEq, Eq, Structural)]
pub struct PongGame {
    pub config: Config,
    pub player1: Paddle,
    pub player2: Paddle,
    pub ball_pos: Vec2,
    pub ball_velocity: Vec2,
}

/// The mathematical state of a match: every coordinate as an integer.
pub struct MatchState {
    pub ball_x: int,
    pub ball_y: int,
    pub vel_x: int,
    pub vel_y: int,
    pub left_x: int,
    pub left_y: int,
    pub right_x: int,
    pub right_y: int,
    pub left_score: nat,
    pub right_score: nat,
}

impl View for PongGame {
    type V = MatchState;

    open spec fn view(&self) -> MatchState {
        MatchState {
            ball_x: self.ball_pos.x as int,
            ball_y: self.ball_pos.y as int,
            vel_x: self.ball_velocity.x as int,
            vel_y: self.ball_velocity.y as int,
            left_x: self.player1.pos.x as int,
            left_y: self.player1.pos.y as int,
            right_x: self.player2.pos.x as int,
            right_y: self.player2.pos.y as int,
            left_score: self.player1.score as nat,
            right_score: self.player2.score as nat,
        }
    }
}

/// The ball's position after a point is scored: the centre of the window.
pub open spec fn center_x(c: Config) -> int {
    c.width / 2
}

/// See [`center_x`].
pub open spec fn center_y(c: Config) -> int {
    c.height / 2
}

/// One tick of the match.
///
/// The ball moves by its velocity. Touching a wall at the moved position
/// negates the vertical velocity; touching a paddle negates the horizontal
/// velocity (each paddle on its own, so both may). A moved ball at or left of
/// the left edge scores for the right player, else one at or right of the
/// right edge scores for the left player; a scoring ball returns to the centre
/// of the window and keeps its velocity. Paddles never move.
pub open spec fn tick(c: Config, s: MatchState) -> MatchState {
    let x = s.ball_x + s.vel_x;
    let y = s.ball_y + s.vel_y;
    let vy = if c.spec_touches_wall(y) { -s.vel_y } else { s.vel_y };
    let vx1 = if c.spec_touches_left_paddle(s.left_y, x, y) { -s.vel_x } else { s.vel_x };
    let vx = if c.spec_touches_right_paddle(s.right_y, x, y) { -vx1 } else { vx1 };
    let moved = MatchState { ball_x: x, ball_y: y, vel_x: vx, vel_y: vy, ..s };
    if x <= 0 {
        MatchState {
            ball_x: center_x(c),
            ball_y: center_y(c),
            right_score: s.right_score + 1,
            ..moved
        }
    } else if x >= c.width {
        MatchState {
            ball_x: center_x(c),
            ball_y: center_y(c),
            left_score: s.left_score + 1,
            ..moved
        }
    } else {
        moved
    }
}

/// `n` ticks of the match in a row.
pub open spec fn ticks(c: Config, s: MatchState, n: nat) -> MatchState
    decreases n,
{
    if n == 0 {
        s
    } else {
        tick(c, ticks(c, s, (n - 1) as nat))
    }
}

impl Paddle {
    /// A paddle with its top-left corner at `(x, y)` and no points.
    pub fn new(x: i64, y: i64) -> (p: Paddle)
        ensures
            p.pos == (Vec2 { x, y }),
            p.score == 0,
    {
        Paddle { pos: Vec2 { x, y }, score: 0 }
    }

    /// Advances the paddle by one tick. No input moves a paddle, so it stays as it is.
    pub fn update(&mut self)
        ensures
            *final(self) == *old(self),
    {
    }
}

impl PongGame {
    /// The velocity can be negated without overflow, and the geometry is well formed.
    pub open spec fn wf(self) -> bool {
        &&& self.config.wf()
        &&& self.ball_velocity.x > i64::MIN
        &&& self.ball_velocity.y > i64::MIN
    }

    /// The next tick's values fit the machine integers: the moved ball's
    /// coordinates, and the score that it adds a point to.
    pub open spec fn tick_fits(self) -> bool {
        let x = self.ball_pos.x + self.ball_velocity.x;
        let y = self.ball_pos.y + self.ball_velocity.y;
        &&& i64::MIN <= x <= i64::MAX
        &&& i64::MIN <= y <= i64::MAX
        &&& x <= 0 ==> self.player2.score < u64::MAX
        &&& (x > 0 && x >= self.config.width) ==> self.player1.score < u64::MAX
    }

    /// A match as it starts with geometry `c`: both paddles vertically
    /// centred at their edges of the window, no points, and the ball at the
    /// centre moving diagonally down and right at `c.ball_speed` per axis.
    pub open spec fn initial(c: Config) -> PongGame {
        let top = (c.height / 2 - c.paddle_height / 2) as i64;
        PongGame {
            config: c,
            player1: Paddle { pos: Vec2 { x: 0, y: top }, score: 0 },
            player2: Paddle { pos: Vec2 { x: (c.width - c.paddle_width) as i64, y: top }, score: 0 },
            ball_pos: Vec2 { x: center_x(c) as i64, y: center_y(c) as i64 },
            ball_velocity: Vec2 { x: c.ball_speed, y: c.ball_speed },
        }
    }

    /// The standard match (see [`Config::spec_standard`]).
    pub fn new() -> (g: PongGame)
        ensures
            g.wf(),
            g == PongGame::initial(Config::spec_standard()),
    {
        PongGame::with_config(Config::standard())
    }

    /// A match as it starts with geometry `c` (see [`PongGame::initial`]).
    pub fn with_config(c: Config) -> (g: PongGame)
        requires
            c.wf(),
        ensures
            g.wf(),
            g == PongGame::initial(c),
    {
        let top = c.height / 2 - c.paddle_height / 2;
        PongGame {
            config: c,
            player1: Paddle::new(0, top),
            player2: Paddle::new(c.width - c.paddle_width, top),
            ball_pos: Vec2 { x: c.width / 2, y: c.height / 2 },
            ball_velocity: Vec2 { x: c.ball_speed, y: c.ball_speed },
        }
    }

    /// Puts the ball back at the centre of the window. Its velocity is kept:
    /// a served ball goes on in the direction it had when the point was scored.
    pub fn reset_ball(&mut self)
        requires
            old(self).config.wf(),
        ensures
            final(self).ball_pos.x == center_x(old(self).config),
            final(self).ball_pos.y == center_y(old(self).config),
            final(self).ball_velocity == old(self).ball_velocity,
            final(self).config == old(self).config,
            final(self).player1 == old(self).player1,
            final(self).player2 == old(self).player2,
    {
        self.ball_pos = Vec2 { x: self.config.width / 2, y: self.config.height / 2 };
    }

    /// Whether the next tick's values fit the machine integers (see [`PongGame::tick_fits`]).
    pub fn can_update(&self) -> (r: bool)
        ensures
            r == self.tick_fits(),
    {
        let x = self.ball_pos.x as i128 + self.ball_velocity.x as i128;
        let y = self.ball_pos.y as i128 + self.ball_velocity.y as i128;
        let fits = i64::MIN as i128 <= x && x <= i64::MAX as i128 && i64::MIN as i128 <= y
            && y <= i64::MAX as i128;
        fits && (x > 0 || self.player2.score < u64::MAX) && (x <= 0 || x < self.config.width
            as i128 || self.player1.score < u64::MAX)
    }

    /// Advances the match by one tick (see [`tick`]).
    pub fn update(&mut self)
        requires
            old(self).wf(),
            old(self).tick_fits(),
        ensures
            final(self).wf(),
            final(self).config == old(self).config,
            final(self)@ == tick(old(self).config, old(self)@),
    {
        let x = self.ball_pos.x + self.ball_velocity.x;
        let y = self.ball_pos.y + self.ball_velocity.y;
        self.ball_pos = Vec2 { x, y };
        if self.config.touches_wall(y) {
            self.ball_velocity.y = -self.ball_velocity.y;
        }
        if self.config.touches_left_paddle(self.player1.pos.y, x, y) {
            self.ball_velocity.x = -self.ball_velocity.x;
        }
        if self.config.touches_right_paddle(self.player2.pos.y, x, y) {
            self.ball_velocity.x = -self.ball_velocity.x;
        }
        if x <= 0 {
            self.player2.score = self.player2.score + 1;
            self.reset_ball();
        } else if x >= self.config.width {
            self.player1.score = self.player1.score + 1;
            self.reset_ball();
        }
    }
}

} // verus!
