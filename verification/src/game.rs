//! The match: which screen is up, whether play is paused, and the order in
//! which the paddles and the ball move in a tick.

use vstd::prelude::*;
use crate::ball::{
    hits_face, rect_views, resolve, resolve_all, score_step, Ball, BallModel, BallState,
};
use crate::constants::{PAD_MARGIN, PAD_SIZE};
use crate::geometry::{CircleModel, Rect, RectModel, Vec2, Viewport, ViewportModel};
use crate::pad::{spawn_y, Pad, PadModel, PadType};
use crate::score::{Score, ScoreModel};
use crate::utils::reset_game;

verus! {

/// The screen a match is on.
#[derive(Clone, Copy, Debug, PartialEq, Eq, Structural)]
pub enum GameState {
    TitleScreen,
    InGame,
    GameOver,
}

/// What the keyboard reports for one tick.
#[derive(Clone, Copy, Debug, PartialEq, Eq, Structural)]
pub struct FrameInput {
    /// The confirm key went down in this tick. It leaves the title and the
    /// game-over screen, and pauses or resumes play.
    pub confirm: bool,
    /// The quit key went down in this tick.
    pub quit: bool,
    /// The serve key went down in this tick.
    pub serve: bool,
    /// The up key is held.
    pub up: bool,
    /// The down key is held.
    pub down: bool,
}

/// A match: the screen, the pause flag, and every object of the game.
#[derive(Clone, Copy, Debug, PartialEq, Eq, Structural)]
pub struct Game {
    pub state: GameState,
    pub paused: bool,
    pub player: Pad,
    pub enemy: Pad,
    pub ball: Ball,
    pub score: Score,
    pub viewport: Viewport,
}

/// Mathematical match: the view of a [`Game`].
pub struct GameModel {
    pub state: GameState,
    pub paused: bool,
    pub player: PadModel,
    pub enemy: PadModel,
    pub ball: BallModel,
    pub score: ScoreModel,
    pub viewport: ViewportModel,
}

/// Whether paddles of the regular size, put where they start a match, lie
/// between the top and the bottom wall of the viewport.
pub open spec fn fits_pads(viewport: ViewportModel) -> bool {
    spawn_y(viewport) + PAD_SIZE.1 <= viewport.height
}

/// Whether the ball is on the field, or has crossed the top or the bottom
/// wall in the last tick and is on its way back.
pub open spec fn in_play(ball: BallModel, viewport: ViewportModel) -> bool {
    &&& 0 <= ball.circle.x <= viewport.width
    &&& {
        ||| 0 <= ball.circle.y <= viewport.height
        ||| ball.circle.y < 0 <= ball.circle.y + ball.dy
        ||| ball.circle.y + ball.dy <= viewport.height < ball.circle.y
    }
}

impl GameModel {
    /// The match as it opens: title screen up, paddles at their starting
    /// places a margin away from the side walls, the ball waiting at the
    /// centre, set to leave in the given direction.
    pub open spec fn opening(viewport: ViewportModel, rightward: bool, downward: bool) -> GameModel {
        GameModel {
            state: GameState::TitleScreen,
            paused: false,
            player: PadModel {
                rect: RectModel {
                    x: PAD_MARGIN as int,
                    y: spawn_y(viewport),
                    w: PAD_SIZE.0 as int,
                    h: PAD_SIZE.1 as int,
                },
                pad_type: PadType::Player,
            },
            enemy: PadModel {
                rect: RectModel {
                    x: viewport.width - PAD_MARGIN - PAD_SIZE.0,
                    y: spawn_y(viewport),
                    w: PAD_SIZE.0 as int,
                    h: PAD_SIZE.1 as int,
                },
                pad_type: PadType::Enemy,
            },
            ball: BallModel::waiting_at(viewport.width / 2, viewport.height / 2, rightward, downward),
            score: ScoreModel::zero(),
            viewport,
        }
    }

    /// The match after the quit key: game-over screen up, pause lifted,
    /// score at zero, paddles and ball put back.
    pub open spec fn quit(self, rightward: bool, downward: bool) -> GameModel {
        GameModel {
            state: GameState::GameOver,
            paused: false,
            player: self.player.reset(self.viewport),
            enemy: self.enemy.reset(self.viewport),
            ball: self.ball.reset(self.viewport, rightward, downward),
            score: ScoreModel::zero(),
            viewport: self.viewport,
        }
    }

    /// The objects moved for one tick: the player's paddle, then the enemy's,
    /// each seeing the ball as the tick began, then the ball, which meets the
    /// paddles where they now are, the player's first.
    pub open spec fn advance(self, input: FrameInput, rightward: bool, downward: bool) -> GameModel {
        let player = self.player.step(
            self.ball.circle,
            self.ball.state,
            input.up,
            input.down,
            self.viewport,
        );
        let enemy = self.enemy.step(
            self.ball.circle,
            self.ball.state,
            input.up,
            input.down,
            self.viewport,
        );
        GameModel {
            player,
            enemy,
            ball: self.ball.step(
                seq![player.rect, enemy.rect],
                self.viewport,
                input.serve,
                rightward,
                downward,
            ),
            score: score_step(self.score, self.ball, self.viewport),
            ..self
        }
    }

    /// The match after one tick.
    ///
    /// On the title and the game-over screen only the confirm key acts: it
    /// starts play. During play the confirm key toggles the pause, then the
    /// quit key resets the match, lifts the pause and brings up the
    /// game-over screen, and then, unless play is paused, the objects move.
    /// `rightward` and `downward` give the direction of a ball that is reset
    /// in this tick.
    pub open spec fn step(self, input: FrameInput, rightward: bool, downward: bool) -> GameModel {
        match self.state {
            GameState::TitleScreen | GameState::GameOver => {
                if input.confirm {
                    GameModel { state: GameState::InGame, ..self }
                } else {
                    self
                }
            },
            GameState::InGame => {
                let toggled = GameModel { paused: self.paused != input.confirm, ..self };
                let begun = if input.quit {
                    toggled.quit(rightward, downward)
                } else {
                    toggled
                };
                if begun.paused {
                    begun
                } else {
                    begun.advance(input, rightward, downward)
                }
            },
        }
    }
}

impl View for Game {
    type V = GameModel;

    open spec fn view(&self) -> GameModel {
        GameModel {
            state: self.state,
            paused: self.paused,
            player: self.player@,
            enemy: self.enemy@,
            ball: self.ball@,
            score: self.score@,
            viewport: self.viewport@,
        }
    }
}

impl Game {
    /// Every object is well formed, both paddles lie between the top and the
    /// bottom wall and still would where they start a match, and the ball is
    /// in play.
    pub open spec fn wf(&self) -> bool {
        &&& self.viewport.wf()
        &&& self.player.wf()
        &&& self.enemy.wf()
        &&& self.ball.wf()
        &&& self.player@.within(self.viewport@)
        &&& self.enemy@.within(self.viewport@)
        &&& self.player@.reset(self.viewport@).within(self.viewport@)
        &&& self.enemy@.reset(self.viewport@).within(self.viewport@)
        &&& in_play(self.ball@, self.viewport@)
    }

    /// Tests `wf` at run time.
    pub fn is_wf(&self) -> (ok: bool)
        ensures
            ok == self.wf(),
    {
        if !(self.viewport.is_wf() && self.player.is_wf() && self.enemy.is_wf()
            && self.ball.is_wf()) {
            return false;
        }
        let height: i64 = self.viewport.height;
        let spawn: i64 = height * 2 / 5;
        let y: i64 = self.ball.circle.y;
        let next_y: i64 = y + self.ball.speed.y;
        0 <= self.player.rect.y && self.player.rect.y <= height - self.player.rect.h && 0
            <= self.enemy.rect.y && self.enemy.rect.y <= height - self.enemy.rect.h && spawn
            <= height - self.player.rect.h && spawn <= height - self.enemy.rect.h && 0
            <= self.ball.circle.x && self.ball.circle.x <= self.viewport.width && ((0 <= y && y
            <= height) || (y < 0 && 0 <= next_y) || (next_y <= height && height < y))
    }

    /// Tests at run time whether a match can be played in `viewport`: whether
    /// it is well formed and paddles of the regular size fit where they
    /// start.
    pub fn supports(viewport: &Viewport) -> (ok: bool)
        ensures
            ok == (viewport.wf() && fits_pads(viewport@)),
    {
        viewport.is_wf() && viewport.height * 2 / 5 + PAD_SIZE.1 <= viewport.height
    }

    /// A match as it opens, with the ball set to leave in a direction drawn
    /// at random.
    pub fn new(viewport: Viewport) -> (game: Game)
        requires
            viewport.wf(),
            fits_pads(viewport@),
        ensures
            game.wf(),
            exists|rightward: bool, downward: bool|
                game@ == GameModel::opening(viewport@, rightward, downward),
    {
        let spawn: i64 = viewport.height * 2 / 5;
        let player = Pad::new(Vec2 { x: PAD_MARGIN + PAD_SIZE.0, y: spawn }, PadType::Player);
        let enemy = Pad::new(Vec2 { x: viewport.width - PAD_MARGIN, y: spawn }, PadType::Enemy);
        let centre = Vec2 { x: viewport.width / 2, y: viewport.height / 2 };
        let ball = Ball::new(centre);
        let score = Score::new();
        let game = Game {
            state: GameState::TitleScreen,
            paused: false,
            player,
            enemy,
            ball,
            score,
            viewport,
        };
        proof {
            let (rightward, downward) = choose|rightward: bool, downward: bool|
                ball@ == BallModel::waiting_at(
                    centre.x as int,
                    centre.y as int,
                    rightward,
                    downward,
                );
            assert(game@ == GameModel::opening(viewport@, rightward, downward));
        }
        game
    }

    /// Moves the objects for one tick of play: the player's paddle, the
    /// enemy's paddle, then the ball.
    pub fn advance(&mut self, input: &FrameInput)
        requires
            old(self).wf(),
            old(self)@.score.player < u32::MAX,
            old(self)@.score.enemy < u32::MAX,
        ensures
            final(self).wf(),
            exists|rightward: bool, downward: bool|
                final(self)@ == old(self)@.advance(*input, rightward, downward),
    {
        let circle = self.ball.circle;
        let state = self.ball.state;
        let viewport = self.viewport;
        let mut pad_list: Vec<Rect> = Vec::new();
        self.player.update(&circle, &state, input.up, input.down, &viewport);
        pad_list.push(self.player.rect);
        self.enemy.update(&circle, &state, input.up, input.down, &viewport);
        pad_list.push(self.enemy.rect);
        let ghost pads = seq![self.player@.rect, self.enemy@.rect];
        assert(rect_views(pad_list@) == pads);
        self.ball.update(pad_list, &mut self.score, input.serve, &viewport);
        proof {
            let (rightward, downward) = choose|rightward: bool, downward: bool|
                self.ball@ == old(self).ball@.step(
                    pads,
                    viewport@,
                    input.serve,
                    rightward,
                    downward,
                );
            lemma_ball_stays_in_play(
                old(self).ball@,
                self.player@.rect,
                self.enemy@.rect,
                viewport@,
                input.serve,
                rightward,
                downward,
            );
            assert(self@ == old(self)@.advance(*input, rightward, downward));
        }
    }

    /// Ends the match: the game-over screen comes up, the pause is lifted,
    /// and the score, the paddles and the ball are reset.
    pub fn quit(&mut self)
        requires
            old(self).wf(),
        ensures
            final(self).wf(),
            exists|rightward: bool, downward: bool|
                final(self)@ == old(self)@.quit(rightward, downward),
    {
        let viewport = self.viewport;
        reset_game(&mut self.player, &mut self.enemy, &mut self.ball, &mut self.score, &viewport);
        self.paused = false;
        self.state = GameState::GameOver;
        proof {
            let (rightward, downward) = choose|rightward: bool, downward: bool|
                self.ball@ == old(self).ball@.reset(viewport@, rightward, downward);
            assert(self@ == old(self)@.quit(rightward, downward));
        }
    }

    /// Plays one tick of the match on `input`.
    pub fn tick(&mut self, input: &FrameInput)
        requires
            old(self).wf(),
            old(self)@.score.player < u32::MAX,
            old(self)@.score.enemy < u32::MAX,
        ensures
            final(self).wf(),
            exists|rightward: bool, downward: bool|
                final(self)@ == old(self)@.step(*input, rightward, downward),
    {
        let ghost mut rightward = true;
        let ghost mut downward = true;
        match self.state {
            GameState::TitleScreen => {
                if input.confirm {
                    self.state = GameState::InGame;
                }
            },
            GameState::InGame => {
                if input.confirm {
                    self.paused = !self.paused;
                }
                let ghost toggled = self@;
                if input.quit {
                    self.quit();
                    proof {
                        let (r, d) = choose|r: bool, d: bool| self@ == toggled.quit(r, d);
                        rightward = r;
                        downward = d;
                    }
                }
                if !self.paused {
                    let ghost begun = self@;
                    self.advance(input);
                    proof {
                        let (r, d) = choose|r: bool, d: bool| self@ == begun.advance(*input, r, d);
                        if input.quit {
                            lemma_waiting_advance(begun, *input, r, d, rightward, downward);
                        } else {
                            rightward = r;
                            downward = d;
                        }
                    }
                }
            },
            GameState::GameOver => {
                if input.confirm {
                    self.state = GameState::InGame;
                }
            },
        }
        assert(self@ == old(self)@.step(*input, rightward, downward));
    }
}

/// While the ball waits, a tick of play does not depend on the direction
/// drawn for a reset.
pub proof fn lemma_waiting_advance(
    game: GameModel,
    input: FrameInput,
    rightward: bool,
    downward: bool,
    other_rightward: bool,
    other_downward: bool,
)
    requires
        game.ball.state == BallState::Inactive,
    ensures
        game.advance(input, rightward, downward) == game.advance(
            input,
            other_rightward,
            other_downward,
        ),
{
}

/// Meeting two paddles in turn is meeting the first and then the second.
pub proof fn lemma_resolve_pair(
    at: CircleModel,
    velocity: (int, int),
    first: RectModel,
    second: RectModel,
)
    ensures
        resolve_all(at, velocity, seq![first, second]) == resolve(
            at,
            resolve(at, velocity, first),
            second,
        ),
{
    let pads = seq![first, second];
    assert(pads.drop_last() == seq![first]);
    assert(pads.drop_last().drop_last() == Seq::<RectModel>::empty());
    assert(pads.last() == second);
    assert(pads.drop_last().last() == first);
    reveal_with_fuel(resolve_all, 3);
}

/// A ball in play is still in play after a tick, provided both paddles lie
/// between the top and the bottom wall: it never leaves the sides without
/// being reset, and when it crosses the top or the bottom wall it turns back
/// at once.
pub proof fn lemma_ball_stays_in_play(
    ball: BallModel,
    player: RectModel,
    enemy: RectModel,
    viewport: ViewportModel,
    serve: bool,
    rightward: bool,
    downward: bool,
)
    requires
        in_play(ball, viewport),
        0 < viewport.width,
        0 < viewport.height,
        0 <= player.y,
        player.bottom() <= viewport.height,
        0 <= enemy.y,
        enemy.bottom() <= viewport.height,
    ensures
        in_play(ball.step(seq![player, enemy], viewport, serve, rightward, downward), viewport),
{
    let at = ball.moved();
    let bounced = (ball.dx, BallModel::wall_bounce(at, ball.dy, viewport));
    lemma_resolve_pair(at, bounced, player, enemy);
    if at.y < 0 || at.y > viewport.height {
        assert(!hits_face(at, bounced.0, player));
        assert(!hits_face(at, resolve(at, bounced, player).0, enemy));
    }
}

/// The screens follow one another as the keys say: confirm leaves the title
/// and the game-over screen for play, quit leaves play for the game-over
/// screen, and nothing else changes the screen. The viewport never changes.
pub proof fn lemma_screen_transitions(
    game: GameModel,
    input: FrameInput,
    rightward: bool,
    downward: bool,
)
    ensures
        game.step(input, rightward, downward).viewport == game.viewport,
        game.step(input, rightward, downward).state == match game.state {
            GameState::TitleScreen | GameState::GameOver => if input.confirm {
                GameState::InGame
            } else {
                game.state
            },
            GameState::InGame => if input.quit {
                GameState::GameOver
            } else {
                GameState::InGame
            },
        },
{
}

/// Off the field of play nothing moves: on the title and the game-over screen
/// a tick leaves the pause flag and every object as they are.
pub proof fn lemma_idle_screens_move_nothing(
    game: GameModel,
    input: FrameInput,
    rightward: bool,
    downward: bool,
)
    requires
        game.state != GameState::InGame,
    ensures
        game.step(input, rightward, downward) == (GameModel {
            state: game.step(input, rightward, downward).state,
            ..game
        }),
{
}

/// While play is paused nothing moves: a tick of play that ends paused, and
/// in which the quit key did not go down, changes the pause flag at most.
pub proof fn lemma_paused_tick_moves_nothing(
    game: GameModel,
    input: FrameInput,
    rightward: bool,
    downward: bool,
)
    requires
        game.state == GameState::InGame,
        !input.quit,
        game.paused != input.confirm,
    ensures
        game.step(input, rightward, downward) == (GameModel { paused: true, ..game }),
{
}

/// In one tick of a match the score stays as it is, or one side wins one
/// point, or the quit key sets it back to zero.
pub proof fn lemma_tick_scores_at_most_once(
    game: GameModel,
    input: FrameInput,
    rightward: bool,
    downward: bool,
)
    ensures
        ({
            let after = game.step(input, rightward, downward).score;
            ||| after == game.score
            ||| after == game.score.player_scored()
            ||| after == game.score.enemy_scored()
            ||| input.quit && after == ScoreModel::zero()
        }),
{
}

} // verus!
