use vstd::prelude::*;
use crate::config::Config;
use crate::game::{Paddle, PongGame};

verus! {

/// Horizontal offset of the score label from the window's top-left corner.
pub const SCORE_TEXT_X: i64 = 10;

/// Vertical offset of the score label from the window's top-left corner.
pub const SCORE_TEXT_Y: i64 = 10;

/// Largest distance allowed between the ball's outline and the true circle
/// when the renderer approximates it with segments.
pub const BALL_TOLERANCE: i64 = 2;

/// The two colours of the game.
#[derive(Clone, Copy, Debug, PartialEq, Eq, Structural)]
pub enum Color {
    Black,
    White,
}

/// One instruction to the renderer.
#[derive(Debug, PartialEq, Eq)]
pub enum DrawCommand {
    /// Fill the whole window.
    Clear { color: Color },
    /// A filled rectangle with its top-left corner at `(x, y)`.
    Rectangle { x: i64, y: i64, width: i64, height: i64, color: Color },
    /// A filled circle centred at `(x, y)`.
    Circle { x: i64, y: i64, radius: i64, tolerance: i64, color: Color },
    /// A line of text with its top-left corner at `(x, y)`.
    Text { x: i64, y: i64, text: Vec<char>, color: Color },
    /// Show the finished frame.
    Present,
}

/// What a [`DrawCommand`] asks for, with its text as a sequence of characters.
pub enum DrawOp {
    Clear { color: Color },
    Rectangle { x: int, y: int, width: int, height: int, color: Color },
    Circle { x: int, y: int, radius: int, tolerance: int, color: Color },
    Text { x: int, y: int, text: Seq<char>, color: Color },
    Present,
}

impl View for DrawCommand {
    type V = DrawOp;

    open spec fn view(&self) -> DrawOp {
        match *self {
            DrawCommand::Clear { color } => DrawOp::Clear { color },
            DrawCommand::Rectangle { x, y, width, height, color } => DrawOp::Rectangle {
                x: x as int,
                y: y as int,
                width: width as int,
                height: height as int,
                color,
            },
            DrawCommand::Circle { x, y, radius, tolerance, color } => DrawOp::Circle {
                x: x as int,
                y: y as int,
                radius: radius as int,
                tolerance: tolerance as int,
                color,
            },
            DrawCommand::Text { x, y, text, color } => DrawOp::Text {
                x: x as int,
                y: y as int,
                text: text@,
                color,
            },
            DrawCommand::Present => DrawOp::Present,
        }
    }
}

/// The character of the decimal digit `d`.
pub open spec fn digit_char(d: int) -> char {
    if d == 0 {
        '0'
    } else if d == 1 {
        '1'
    } else if d == 2 {
        '2'
    } else if d == 3 {
        '3'
    } else if d == 4 {
        '4'
    } else if d == 5 {
        '5'
    } else if d == 6 {
        '6'
    } else if d == 7 {
        '7'
    } else if d == 8 {
        '8'
    } else {
        '9'
    }
}

/// The decimal numeral of `n`, without leading zeros.
pub open spec fn decimal(n: nat) -> Seq<char>
    decreases n,
{
    if n < 10 {
        seq![digit_char(n as int)]
    } else {
        decimal(n / 10).push(digit_char((n % 10) as int))
    }
}

/// The score label: the left score, `" - "`, then the right score.
pub open spec fn score_text(left: nat, right: nat) -> Seq<char> {
    decimal(left) + seq![' ', '-', ' '] + decimal(right)
}

/// The rectangle of a paddle of geometry `c` with its top-left corner at `(x, y)`.
pub open spec fn paddle_op(c: Config, x: int, y: int) -> DrawOp {
    DrawOp::Rectangle { x, y, width: c.paddle_width as int, height: c.paddle_height as int, color: Color::White }
}

/// The frame of a match in state `s` with geometry `c`: a black background,
/// the left paddle, the right paddle, the ball, the score label, then the
/// instruction to show the frame.
pub open spec fn frame(c: Config, s: crate::game::MatchState) -> Seq<DrawOp> {
    seq![
        DrawOp::Clear { color: Color::Black },
        paddle_op(c, s.left_x, s.left_y),
        paddle_op(c, s.right_x, s.right_y),
        DrawOp::Circle {
            x: s.ball_x,
            y: s.ball_y,
            radius: c.ball_radius as int,
            tolerance: BALL_TOLERANCE as int,
            color: Color::White,
        },
        DrawOp::Text {
            x: SCORE_TEXT_X as int,
            y: SCORE_TEXT_Y as int,
            text: score_text(s.left_score, s.right_score),
            color: Color::White,
        },
        DrawOp::Present,
    ]
}

/// The views of a list of commands, in order.
pub open spec fn ops_of(cmds: Seq<DrawCommand>) -> Seq<DrawOp> {
    cmds.map_values(|cmd: DrawCommand| cmd@)
}

/// The character of the decimal digit `d`.
fn digit_to_char(d: u64) -> (c: char)
    requires
        d < 10,
    ensures
        c == digit_char(d as int),
{
    if d == 0 {
        '0'
    } else if d == 1 {
        '1'
    } else if d == 2 {
        '2'
    } else if d == 3 {
        '3'
    } else if d == 4 {
        '4'
    } else if d == 5 {
        '5'
    } else if d == 6 {
        '6'
    } else if d == 7 {
        '7'
    } else if d == 8 {
        '8'
    } else {
        '9'
    }
}

/// Appends the decimal numeral of `n` to `out`.
pub fn push_decimal(out: &mut Vec<char>, n: u64)
    ensures
        final(out)@ == old(out)@ + decimal(n as nat),
    decreases n,
{
    if n >= 10 {
        push_decimal(out, n / 10);
    }
    out.push(digit_to_char(n % 10));
    proof {
        if n >= 10 {
            assert(old(out)@ + decimal((n / 10) as nat) + seq![digit_char((n % 10) as int)]
                =~= old(out)@ + decimal(n as nat));
        } else {
            assert(old(out)@ + seq![digit_char((n % 10) as int)] =~= old(out)@ + decimal(
                n as nat,
            ));
        }
    }
}

/// The score label for a left score of `left` and a right score of `right`,
/// such as `"3 - 12"`.
pub fn score_label(left: u64, right: u64) -> (r: Vec<char>)
    ensures
        r@ == score_text(left as nat, right as nat),
{
    let mut r: Vec<char> = Vec::new();
    push_decimal(&mut r, left);
    r.push(' ');
    r.push('-');
    r.push(' ');
    push_decimal(&mut r, right);
    assert(r@ =~= score_text(left as nat, right as nat));
    r
}

impl Paddle {
    /// The white rectangle of this paddle, sized by `c`.
    pub fn draw(&self, c: &Config) -> (cmd: DrawCommand)
        ensures
            cmd@ == paddle_op(*c, self.pos.x as int, self.pos.y as int),
    {
        DrawCommand::Rectangle {
            x: self.pos.x,
            y: self.pos.y,
            width: c.paddle_width,
            height: c.paddle_height,
            color: Color::White,
        }
    }
}

impl PongGame {
    /// The commands that draw the current frame (see [`frame`]). The match is not changed.
    pub fn draw(&self) -> (cmds: Vec<DrawCommand>)
        ensures
            ops_of(cmds@) == frame(self.config, self@),
    {
        let mut cmds: Vec<DrawCommand> = Vec::new();
        cmds.push(DrawCommand::Clear { color: Color::Black });
        cmds.push(self.player1.draw(&self.config));
        cmds.push(self.player2.draw(&self.config));
        cmds.push(
            DrawCommand::Circle {
                x: self.ball_pos.x,
                y: self.ball_pos.y,
                radius: self.config.ball_radius,
                tolerance: BALL_TOLERANCE,
                color: Color::White,
            },
        );
        let text = score_label(self.player1.score, self.player2.score);
        cmds.push(DrawCommand::Text { x: SCORE_TEXT_X, y: SCORE_TEXT_Y, text, color: Color::White });
        cmds.push(DrawCommand::Present);
        assert(ops_of(cmds@) =~= frame(self.config, self@));
        cmds
    }
}

} // verus!
