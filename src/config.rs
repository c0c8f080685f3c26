use vstd::prelude::*;

verus! {

/// Window width of the standard match, in pixels.
pub const WINDOW_WIDTH: i64 = 800;

/// Window height of the standard match, in pixels.
pub const WINDOW_HEIGHT: i64 = 600;

/// Paddle width of the standard match.
pub const PADDLE_WIDTH: i64 = 20;

/// Paddle height of the standard match.
pub const PADDLE_HEIGHT: i64 = 100;

/// Ball radius of the standard match.
pub const BALL_RADIUS: i64 = 10;

/// Per-tick speed of the ball along each axis at the start of the standard match.
pub const BALL_SPEED: i64 = 2;

/// The fixed geometry of a match: window size, paddle size, ball radius
/// and the ball's starting speed along each axis.
#[derive(Clone, Copy, Debug, PartialEq, Eq, Structural)]
pub struct Config {
    pub width: i64,
    pub height: i64,
    pub paddle_width: i64,
    pub paddle_height: i64,
    pub ball_radius: i64,
    pub ball_speed: i64,
}

impl Config {
    /// Sizes are non-negative.
    pub open spec fn wf(self) -> bool {
        &&& self.width >= 0
        &&& self.height >= 0
        &&& self.paddle_width >= 0
        &&& self.paddle_height >= 0
        &&& self.ball_radius >= 0
        &&& self.ball_speed >= 0
    }

    /// The 800 by 600 match with 20 by 100 paddles, a ball of radius 10 and speed 2.
    pub open spec fn spec_standard() -> Config {
        Config {
            width: WINDOW_WIDTH,
            height: WINDOW_HEIGHT,
            paddle_width: PADDLE_WIDTH,
            paddle_height: PADDLE_HEIGHT,
            ball_radius: BALL_RADIUS,
            ball_speed: BALL_SPEED,
        }
    }

    /// The standard geometry (see [`Config::spec_standard`]).
    pub fn standard() -> (c: Config)
        ensures
            c.wf(),
            c == Config::spec_standard(),
    {
        Config {
            width: WINDOW_WIDTH,
            height: WINDOW_HEIGHT,
            paddle_width: PADDLE_WIDTH,
            paddle_height: PADDLE_HEIGHT,
            ball_radius: BALL_RADIUS,
            ball_speed: BALL_SPEED,
        }
    }

    /// Whether a ball centred at height `y` touches the top or bottom wall.
    pub open spec fn spec_touches_wall(self, y: int) -> bool {
        y <= self.ball_radius || y >= self.height - self.ball_radius
    }

    /// Whether a ball centred at height `y` touches the top or bottom wall
    /// (the bounds are inclusive).
    pub fn touches_wall(&self, y: i64) -> (r: bool)
        ensures
            r == self.spec_touches_wall(y as int),
    {
        (y as i128) <= (self.ball_radius as i128)
            || (y as i128) >= (self.height as i128) - (self.ball_radius as i128)
    }

    /// Whether a ball centred at `(x, y)` touches the left paddle, whose top edge is at `top`.
    pub open spec fn spec_touches_left_paddle(self, top: int, x: int, y: int) -> bool {
        x <= self.paddle_width && top <= y && y <= top + self.paddle_height
    }

    /// Whether a ball centred at `(x, y)` touches the left paddle, whose
    /// top edge is at `top` (the bounds are inclusive).
    pub fn touches_left_paddle(&self, top: i64, x: i64, y: i64) -> (r: bool)
        ensures
            r == self.spec_touches_left_paddle(top as int, x as int, y as int),
    {
        x <= self.paddle_width && top <= y && (y as i128) <= (top as i128)
            + (self.paddle_height as i128)
    }

    /// Whether a ball centred at `(x, y)` touches the right paddle, whose top edge is at `top`.
    pub open spec fn spec_touches_right_paddle(self, top: int, x: int, y: int) -> bool {
        x >= self.width - self.paddle_width && top <= y && y <= top + self.paddle_height
    }

    /// Whether a ball centred at `(x, y)` touches the right paddle, whose
    /// top edge is at `top` (the bounds are inclusive).
    pub fn touches_right_paddle(&self, top: i64, x: i64, y: i64) -> (r: bool)
        ensures
            r == self.spec_touches_right_paddle(top as int, x as int, y as int),
    {
        (x as i128) >= (self.width as i128) - (self.paddle_width as i128) && top <= y
            && (y as i128) <= (top as i128) + (self.paddle_height as i128)
    }
}

} // verus!
