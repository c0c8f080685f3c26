use vstd::prelude::*;
use crate::config::Config;
use crate::draw::{frame, ops_of, DrawCommand};
use crate::game::{center_x, center_y, tick, ticks, MatchState, PongGame};

verus! {

/// A ball that stays strictly between the walls, where the tick starts and
/// at the position the tick moves it to, keeps its vertical velocity.
pub proof fn lemma_vertical_velocity_kept_between_walls(c: Config, s: MatchState)
    requires
        c.ball_radius < s.ball_y < c.height - c.ball_radius,
        c.ball_radius < s.ball_y + s.vel_y < c.height - c.ball_radius,
    ensures
        tick(c, s).vel_y == s.vel_y,
{
}

/// A ball at or beyond the top wall that is not moving away from it has its
/// vertical velocity negated by the tick: it bounces once, not twice.
pub proof fn lemma_top_wall_bounces_once(c: Config, s: MatchState)
    requires
        s.ball_y <= c.ball_radius,
        s.vel_y <= 0,
    ensures
        tick(c, s).vel_y == -s.vel_y,
{
}

/// A ball that the tick moves to or past the left edge scores exactly one
/// point for the right player, none for the left one, and is put back at the
/// centre of the window.
pub proof fn lemma_left_edge_scores_for_right(c: Config, s: MatchState)
    requires
        s.ball_x + s.vel_x <= 0,
    ensures
        tick(c, s).right_score == s.right_score + 1,
        tick(c, s).left_score == s.left_score,
        tick(c, s).ball_x == center_x(c),
        tick(c, s).ball_y == center_y(c),
{
}

/// No tick scores for both players: each score grows by at most one, and
/// together by at most one.
pub proof fn lemma_one_point_per_tick(c: Config, s: MatchState)
    ensures
        s.left_score <= tick(c, s).left_score,
        s.right_score <= tick(c, s).right_score,
        tick(c, s).left_score + tick(c, s).right_score <= s.left_score + s.right_score + 1,
{
}

/// The paddles are where they were after any number of ticks.
pub proof fn lemma_paddles_never_move(c: Config, s: MatchState, n: nat)
    ensures
        ticks(c, s, n).left_x == s.left_x,
        ticks(c, s, n).left_y == s.left_y,
        ticks(c, s, n).right_x == s.right_x,
        ticks(c, s, n).right_y == s.right_y,
    decreases n,
{
    if n > 0 {
        lemma_paddles_never_move(c, s, (n - 1) as nat);
    }
}

/// Drawing twice a match that has not changed in between gives the same
/// commands: any two command lists that [`PongGame::draw`] may return for the
/// match are the same list.
pub proof fn lemma_draw_repeats(g: PongGame, first: Seq<DrawCommand>, second: Seq<DrawCommand>)
    requires
        ops_of(first) == frame(g.config, g@),
        ops_of(second) == frame(g.config, g@),
    ensures
        ops_of(first) == ops_of(second),
        ops_of(first).len() == 6,
{
}

} // verus!
