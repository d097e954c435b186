//! The two point counters of a match.

use vstd::prelude::*;

verus! {

/// Points won so far by each side.
#[derive(Clone, Copy, Debug, PartialEq, Eq, Structural)]
pub struct Score {
    player: u32,
    enemy: u32,
}

/// Mathematical score: the view of a [`Score`].
pub struct ScoreModel {
    pub player: nat,
    pub enemy: nat,
}

impl ScoreModel {
    /// The score after the player wins a point.
    pub open spec fn player_scored(self) -> ScoreModel {
        ScoreModel { player: self.player + 1, enemy: self.enemy }
    }

    /// The score after the enemy wins a point.
    pub open spec fn enemy_scored(self) -> ScoreModel {
        ScoreModel { player: self.player, enemy: self.enemy + 1 }
    }

    /// The score at the start of a match.
    pub open spec fn zero() -> ScoreModel {
        ScoreModel { player: 0, enemy: 0 }
    }
}

impl View for Score {
    type V = ScoreModel;

    closed spec fn view(&self) -> ScoreModel {
        ScoreModel { player: self.player as nat, enemy: self.enemy as nat }
    }
}

impl Score {
    /// A score of zero to zero.
    pub fn new() -> (score: Score)
        ensures
            score@ == ScoreModel::zero(),
    {
        Score { player: 0, enemy: 0 }
    }

    /// Sets both counters back to zero.
    pub fn reset_score(&mut self)
        ensures
            final(self)@ == ScoreModel::zero(),
    {
        self.player = 0;
        self.enemy = 0;
    }

    /// Gives the player one point.
    pub fn increment_player(&mut self)
        requires
            old(self)@.player < u32::MAX,
        ensures
            final(self)@ == old(self)@.player_scored(),
    {
        self.player = self.player + 1;
    }

    /// Gives the enemy one point.
    pub fn increment_enemy(&mut self)
        requires
            old(self)@.enemy < u32::MAX,
        ensures
            final(self)@ == old(self)@.enemy_scored(),
    {
        self.enemy = self.enemy + 1;
    }

    /// The player's points.
    pub fn player(&self) -> (points: u32)
        ensures
            points == self@.player,
    {
        self.player
    }

    /// The enemy's points.
    pub fn enemy(&self) -> (points: u32)
        ensures
            points == self@.enemy,
    {
        self.enemy
    }
}

} // verus!
