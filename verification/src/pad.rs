//! The paddles: one moved by the keyboard, one that follows the ball.

use vstd::prelude::*;
use crate::ball::BallState;
use crate::constants::{ENEMY_STEP, PAD_SIZE, PLAYER_STEP};
use crate::geometry::{clamp, in_coord_range, Circle, CircleModel, Rect, RectModel, Vec2, Viewport, ViewportModel};

verus! {

/// Who moves a paddle: the keyboard or the computer.
#[derive(Clone, Copy, Debug, PartialEq, Eq, Structural)]
pub enum PadType {
    Player,
    Enemy,
}

/// A paddle: its rectangle and who moves it.
#[derive(Clone, Copy, Debug, PartialEq, Eq, Structural)]
pub struct Pad {
    pub rect: Rect,
    pub pad_type: PadType,
}

/// Mathematical paddle: the view of a [`Pad`].
pub struct PadModel {
    pub rect: RectModel,
    pub pad_type: PadType,
}

/// The y coordinate at which a paddle starts a match: two fifths of the way
/// down the viewport.
pub open spec fn spawn_y(viewport: ViewportModel) -> int {
    viewport.height * 2 / 5
}

/// The step of the keyboard-driven paddle: up while only the up key is held,
/// down while only the down key is held, none otherwise.
pub open spec fn player_step(up: bool, down: bool) -> int {
    if up && !down {
        -PLAYER_STEP
    } else if down && !up {
        PLAYER_STEP as int
    } else {
        0
    }
}

/// The step of the computer-driven paddle towards a ball at height `ball_y`.
///
/// Two checks are made in turn and the second overrules the first: a top
/// edge above the ball asks for a step down, a bottom edge below the ball
/// asks for a step up. A ball level with the paddle therefore draws the
/// paddle up, until its bottom edge is level with the ball.
pub open spec fn enemy_step(rect: RectModel, ball_y: int) -> int {
    if rect.bottom() > ball_y {
        -ENEMY_STEP
    } else if rect.y < ball_y {
        ENEMY_STEP as int
    } else {
        0
    }
}

impl PadModel {
    /// Whether the paddle lies between the top and the bottom wall.
    pub open spec fn within(self, viewport: ViewportModel) -> bool {
        0 <= self.rect.y <= viewport.height - self.rect.h
    }

    /// The paddle moved to height `y`.
    pub open spec fn at_y(self, y: int) -> PadModel {
        PadModel { rect: RectModel { y, ..self.rect }, ..self }
    }

    /// The step the paddle asks for in one tick, before the walls stop it.
    pub open spec fn wanted_step(self, ball: CircleModel, up: bool, down: bool) -> int {
        match self.pad_type {
            PadType::Player => player_step(up, down),
            PadType::Enemy => enemy_step(self.rect, ball.y),
        }
    }

    /// The paddle after one tick.
    ///
    /// While the ball waits, the paddle stays where it is. While the ball is
    /// in motion the paddle takes its step and is then stopped at the walls:
    /// a paddle above the top wall is put at `0`, and otherwise one below the
    /// bottom wall is put at `viewport.height - rect.h`.
    pub open spec fn step(
        self,
        ball: CircleModel,
        state: BallState,
        up: bool,
        down: bool,
        viewport: ViewportModel,
    ) -> PadModel {
        match state {
            BallState::Inactive => self,
            BallState::Active => {
                let y = self.rect.y + self.wanted_step(ball, up, down);
                self.at_y(clamp(y, 0, viewport.height - self.rect.h))
            },
        }
    }

    /// The paddle put back where it starts a match.
    pub open spec fn reset(self, viewport: ViewportModel) -> PadModel {
        self.at_y(spawn_y(viewport))
    }
}

impl View for Pad {
    type V = PadModel;

    open spec fn view(&self) -> PadModel {
        PadModel { rect: self.rect@, pad_type: self.pad_type }
    }
}

impl Pad {
    /// The rectangle is well formed.
    pub open spec fn wf(&self) -> bool {
        self.rect.wf()
    }

    /// Tests `wf` at run time.
    pub fn is_wf(&self) -> (ok: bool)
        ensures
            ok == self.wf(),
    {
        self.rect.is_wf()
    }

    /// A paddle of the regular size whose top-right corner is at `pos`.
    pub fn new(pos: Vec2, pad_type: PadType) -> (pad: Pad)
        requires
            pos.wf(),
            in_coord_range(pos.x - PAD_SIZE.0),
        ensures
            pad.wf(),
            pad@ == (PadModel {
                rect: RectModel {
                    x: pos.x - PAD_SIZE.0,
                    y: pos.y as int,
                    w: PAD_SIZE.0 as int,
                    h: PAD_SIZE.1 as int,
                },
                pad_type,
            }),
    {
        let w: i64 = PAD_SIZE.0;
        let h: i64 = PAD_SIZE.1;
        Pad { rect: Rect { x: pos.x - w, y: pos.y, w, h }, pad_type }
    }

    /// Moves the paddle for one tick.
    ///
    /// `ball` and `state` describe the ball as the tick begins; `up` and
    /// `down` say which of the two movement keys are held.
    pub fn update(
        &mut self,
        ball: &Circle,
        state: &BallState,
        up: bool,
        down: bool,
        viewport: &Viewport,
    )
        requires
            old(self).wf(),
            viewport.wf(),
        ensures
            final(self).wf(),
            final(self)@ == old(self)@.step(ball@, *state, up, down, viewport@),
            *state == BallState::Active && old(self)@.rect.h <= viewport@.height
                ==> final(self)@.within(viewport@),
            old(self)@.within(viewport@) ==> final(self)@.within(viewport@),
    {
        match self.pad_type {
            PadType::Player => {
                match state {
                    BallState::Active => {
                        let move_y: i64 = match (up, down) {
                            (true, false) => -PLAYER_STEP,
                            (false, true) => PLAYER_STEP,
                            _ => 0,
                        };
                        self.rect.y = self.rect.y + move_y;
                        if self.rect.y < 0 {
                            self.rect.y = 0;
                        } else if self.rect.y > viewport.height - self.rect.h {
                            self.rect.y = viewport.height - self.rect.h;
                        }
                    },
                    _ => (),
                }
            },
            PadType::Enemy => {
                match state {
                    BallState::Active => {
                        let move_y: i64 = self.follow_ball(ball);
                        self.rect.y = self.rect.y + move_y;
                        if self.rect.y < 0 {
                            self.rect.y = 0;
                        } else if self.rect.y > viewport.height - self.rect.h {
                            self.rect.y = viewport.height - self.rect.h;
                        }
                    },
                    _ => (),
                }
            },
        }
    }

    /// The step the computer-driven paddle takes towards `ball`.
    pub fn follow_ball(&mut self, ball: &Circle) -> (move_y: i64)
        requires
            old(self).wf(),
        ensures
            *final(self) == *old(self),
            move_y == enemy_step(old(self)@.rect, ball@.y),
    {
        let mut move_y: i64 = 0;
        if self.rect.top() < ball.y {
            move_y = ENEMY_STEP;
        }
        if self.rect.bottom() > ball.y {
            move_y = -ENEMY_STEP;
        }
        move_y
    }

    /// Puts the paddle back where it starts a match.
    pub fn reset_position(&mut self, viewport: &Viewport)
        requires
            old(self).wf(),
            viewport.wf(),
        ensures
            final(self).wf(),
            final(self)@ == old(self)@.reset(viewport@),
    {
        self.rect.y = viewport.height * 2 / 5;
    }
}

/// The wall rule: after a tick with the ball in motion a paddle that is no
/// taller than the viewport lies between the walls, and a paddle that lay
/// between the walls still does after any tick.
pub proof fn lemma_pad_stays_within(
    pad: PadModel,
    ball: CircleModel,
    state: BallState,
    up: bool,
    down: bool,
    viewport: ViewportModel,
)
    ensures
        state == BallState::Active && pad.rect.h <= viewport.height ==> pad.step(
            ball,
            state,
            up,
            down,
            viewport,
        ).within(viewport),
        pad.within(viewport) ==> pad.step(ball, state, up, down, viewport).within(viewport),
{
}

} // verus!
