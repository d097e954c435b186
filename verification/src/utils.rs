//! Helpers that act on several game objects at once.

use vstd::prelude::*;
use crate::ball::Ball;
use crate::geometry::Viewport;
use crate::pad::Pad;
use crate::score::{Score, ScoreModel};

verus! {

/// Starts the match over: the score goes back to zero, both paddles go back
/// to where they start, and the ball is put back for a serve in a direction
/// drawn at random.
pub fn reset_game(
    player: &mut Pad,
    enemy: &mut Pad,
    ball: &mut Ball,
    score: &mut Score,
    viewport: &Viewport,
)
    requires
        old(player).wf(),
        old(enemy).wf(),
        viewport.wf(),
    ensures
        final(player).wf(),
        final(enemy).wf(),
        final(score)@ == ScoreModel::zero(),
        final(player)@ == old(player)@.reset(viewport@),
        final(enemy)@ == old(enemy)@.reset(viewport@),
        exists|rightward: bool, downward: bool|
            final(ball)@ == old(ball)@.reset(viewport@, rightward, downward),
{
    score.reset_score();
    player.reset_position(viewport);
    enemy.reset_position(viewport);
    ball.reset_position(viewport);
}

} // verus!
