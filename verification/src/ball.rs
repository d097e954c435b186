//! The ball: its motion, its bounces off walls and paddles, and scoring.

use vstd::prelude::*;
use vstd::math::abs;
use crate::constants::{BALL_RADIUS, BALL_SPEED};
use crate::geometry::{
    clamp, in_coord_range, Circle, CircleModel, Rect, RectModel, Vec2, Viewport, ViewportModel,
};
use crate::random::coin_flip;
use crate::score::{Score, ScoreModel};

verus! {

/// Whether the ball is in motion or waits to be served.
#[derive(Clone, Copy, Debug, PartialEq, Eq, Structural)]
pub enum BallState {
    Active,
    Inactive,
}

/// The ball: a circle, its displacement per tick, and its state.
#[derive(Clone, Copy, Debug, PartialEq, Eq, Structural)]
pub struct Ball {
    pub circle: Circle,
    pub speed: Vec2,
    pub state: BallState,
}

/// Mathematical ball: the view of a [`Ball`].
pub struct BallModel {
    pub circle: CircleModel,
    pub dx: int,
    pub dy: int,
    pub state: BallState,
}

/// A velocity component of magnitude `BALL_SPEED`, positive or negative.
pub open spec fn signed_speed(positive: bool) -> int {
    if positive {
        BALL_SPEED as int
    } else {
        -BALL_SPEED
    }
}

/// Whether `(dx, dy)` is a velocity the ball can have: full speed along x,
/// at most full speed along y.
pub open spec fn valid_velocity(dx: int, dy: int) -> bool {
    (dx == BALL_SPEED || dx == -BALL_SPEED) && -BALL_SPEED <= dy <= BALL_SPEED
}

/// Whether a ball at `circle` with horizontal velocity `dx` bounces off the
/// face of `pad`: the two overlap, the centre is level with the face, and the
/// ball travels towards the paddle's far edge and has reached it.
pub open spec fn hits_face(circle: CircleModel, dx: int, pad: RectModel) -> bool {
    &&& circle.overlaps_rect(pad)
    &&& pad.y <= circle.y <= pad.bottom()
    &&& ((dx < 0 && circle.x - circle.r <= pad.right()) || (dx > 0 && circle.x + circle.r
        >= pad.x))
}

/// The vertical velocity a ball leaves the face of `pad` with.
///
/// With `d` the distance by which the ball's centre lies above the middle
/// of the face (negative when it lies below), the velocity is
/// `-d * BALL_SPEED / (pad.h / 2)`, rounded towards zero: zero at the middle
/// of the face, `-BALL_SPEED` at its top edge and `BALL_SPEED` at its bottom
/// edge. The definition works with `2 * d`, which is whole also for a paddle
/// of odd height.
pub open spec fn deflection(circle: CircleModel, pad: RectModel) -> int {
    let twice_d = 2 * pad.y + pad.h - 2 * circle.y;
    if twice_d >= 0 {
        -((twice_d * BALL_SPEED) / pad.h)
    } else {
        ((-twice_d) * BALL_SPEED) / pad.h
    }
}

/// The velocity of a ball at `circle` after it has met `pad`: reversed along
/// x and deflected along y if it hits the face, unchanged otherwise.
pub open spec fn resolve(circle: CircleModel, velocity: (int, int), pad: RectModel) -> (int, int) {
    if hits_face(circle, velocity.0, pad) {
        (-velocity.0, deflection(circle, pad))
    } else {
        velocity
    }
}

/// The velocity of a ball at `circle` after it has met each of `pads` in
/// turn, first to last.
pub open spec fn resolve_all(circle: CircleModel, velocity: (int, int), pads: Seq<RectModel>) -> (
    int,
    int,
)
    decreases pads.len(),
{
    if pads.len() == 0 {
        velocity
    } else {
        resolve(circle, resolve_all(circle, velocity, pads.drop_last()), pads.last())
    }
}

/// The views of a sequence of rectangles.
pub open spec fn rect_views(rects: Seq<Rect>) -> Seq<RectModel> {
    rects.map_values(|r: Rect| r@)
}

impl BallModel {
    /// Where the ball is after travelling for one tick.
    pub open spec fn moved(self) -> CircleModel {
        CircleModel { x: self.circle.x + self.dx, y: self.circle.y + self.dy, r: self.circle.r }
    }

    /// Whether the ball is in motion and one tick takes it past the left
    /// wall.
    pub open spec fn exits_left(self) -> bool {
        self.state == BallState::Active && self.moved().x < 0
    }

    /// Whether the ball is in motion and one tick takes it past the right
    /// wall.
    pub open spec fn exits_right(self, viewport: ViewportModel) -> bool {
        self.state == BallState::Active && self.moved().x > viewport.width
    }

    /// A ball waiting at `(x, y)` with the regular radius, set to leave in
    /// the given direction.
    pub open spec fn waiting_at(x: int, y: int, rightward: bool, downward: bool) -> BallModel {
        BallModel {
            circle: CircleModel { x, y, r: BALL_RADIUS as int },
            dx: signed_speed(rightward),
            dy: signed_speed(downward),
            state: BallState::Inactive,
        }
    }

    /// The ball put back for the next serve: waiting at the centre of the
    /// viewport, set to leave in the given direction.
    pub open spec fn reset(self, viewport: ViewportModel, rightward: bool, downward: bool) -> BallModel {
        BallModel {
            circle: CircleModel { x: viewport.width / 2, y: viewport.height / 2, r: self.circle.r },
            dx: signed_speed(rightward),
            dy: signed_speed(downward),
            state: BallState::Inactive,
        }
    }

    /// The vertical velocity after the top and bottom walls have been
    /// checked for a ball that has arrived at `at`.
    pub open spec fn wall_bounce(at: CircleModel, dy: int, viewport: ViewportModel) -> int {
        if at.y < 0 || at.y > viewport.height {
            -dy
        } else {
            dy
        }
    }

    /// The ball after one tick.
    ///
    /// A waiting ball stays where it is, and becomes active if `serve` is
    /// set. An active ball travels by its velocity. If that takes it past the
    /// left or the right wall it is reset, in the direction given by
    /// `rightward` and `downward`, and nothing else happens in this tick.
    /// Otherwise it bounces off the top and bottom walls and then meets each
    /// paddle in turn.
    pub open spec fn step(
        self,
        pads: Seq<RectModel>,
        viewport: ViewportModel,
        serve: bool,
        rightward: bool,
        downward: bool,
    ) -> BallModel {
        if self.state == BallState::Inactive {
            BallModel { state: if serve { BallState::Active } else { BallState::Inactive }, ..self }
        } else if self.exits_left() || self.exits_right(viewport) {
            self.reset(viewport, rightward, downward)
        } else {
            let at = self.moved();
            let bounced = (self.dx, Self::wall_bounce(at, self.dy, viewport));
            let velocity = resolve_all(at, bounced, pads);
            BallModel { circle: at, dx: velocity.0, dy: velocity.1, state: BallState::Active }
        }
    }
}

/// The score after a tick in which the ball started out as `ball`: the enemy
/// wins a point if the ball leaves on the left, the player if it leaves on
/// the right.
pub open spec fn score_step(score: ScoreModel, ball: BallModel, viewport: ViewportModel) -> ScoreModel {
    if ball.exits_left() {
        score.enemy_scored()
    } else if ball.exits_right(viewport) {
        score.player_scored()
    } else {
        score
    }
}

/// What one tick brings to the ball: the paddles it meets, whether the
/// serve key went down, and the direction drawn for a reset.
pub struct BallTick {
    pub pads: Seq<RectModel>,
    pub serve: bool,
    pub rightward: bool,
    pub downward: bool,
}

/// The ball after the given ticks, first to last.
pub open spec fn run(ball: BallModel, viewport: ViewportModel, ticks: Seq<BallTick>) -> BallModel
    decreases ticks.len(),
{
    if ticks.len() == 0 {
        ball
    } else {
        let tick = ticks.last();
        run(ball, viewport, ticks.drop_last()).step(
            tick.pads,
            viewport,
            tick.serve,
            tick.rightward,
            tick.downward,
        )
    }
}

impl View for Ball {
    type V = BallModel;

    open spec fn view(&self) -> BallModel {
        BallModel {
            circle: self.circle@,
            dx: self.speed.x as int,
            dy: self.speed.y as int,
            state: self.state,
        }
    }
}

/// The velocity component of magnitude `BALL_SPEED` with the given sign.
fn speed_toward(positive: bool) -> (v: i64)
    ensures
        v == signed_speed(positive),
{
    if positive {
        BALL_SPEED
    } else {
        -BALL_SPEED
    }
}

impl Ball {
    /// The circle is well formed and the velocity is one the ball can have.
    pub open spec fn wf(&self) -> bool {
        self.circle.wf() && valid_velocity(self@.dx, self@.dy)
    }

    /// Tests `wf` at run time.
    pub fn is_wf(&self) -> (ok: bool)
        ensures
            ok == self.wf(),
    {
        self.circle.is_wf() && (self.speed.x == BALL_SPEED || self.speed.x == -BALL_SPEED)
            && -BALL_SPEED <= self.speed.y && self.speed.y <= BALL_SPEED
    }

    /// The velocity after the ball, where it is now, has met `pad`.
    pub fn resolve_collision(&self, pad: &Rect) -> (velocity: Vec2)
        requires
            self.wf(),
            pad.wf(),
        ensures
            (velocity.x as int, velocity.y as int) == resolve(
                self@.circle,
                (self@.dx, self@.dy),
                pad@,
            ),
    {
        let mut dx: i64 = self.speed.x;
        let mut dy: i64 = self.speed.y;
        if self.circle.overlaps_rect(pad) {
            if self.circle.y >= pad.y && self.circle.y <= pad.y + pad.h {
                if (self.speed.x < 0 && self.circle.x - self.circle.r <= pad.x + pad.w) || (
                self.speed.x > 0 && self.circle.x + self.circle.r >= pad.x) {
                    dx = -dx;
                    let twice_d: i64 = 2 * pad.y + pad.h - 2 * self.circle.y;
                    if twice_d >= 0 {
                        dy = -((twice_d * BALL_SPEED) / pad.h);
                    } else {
                        dy = ((-twice_d) * BALL_SPEED) / pad.h;
                    }
                }
            }
        }
        Vec2 { x: dx, y: dy }
    }

    /// A ball waiting at `pos` with the regular radius, set to leave in the
    /// given direction.
    pub fn with_direction(pos: Vec2, rightward: bool, downward: bool) -> (ball: Ball)
        ensures
            ball@ == BallModel::waiting_at(pos.x as int, pos.y as int, rightward, downward),
    {
        Ball {
            circle: Circle { x: pos.x, y: pos.y, r: BALL_RADIUS },
            speed: Vec2 { x: speed_toward(rightward), y: speed_toward(downward) },
            state: BallState::Inactive,
        }
    }

    /// A ball waiting at `pos` with the regular radius, set to leave in a
    /// direction drawn at random: each axis by one draw of its own.
    pub fn new(pos: Vec2) -> (ball: Ball)
        ensures
            exists|rightward: bool, downward: bool|
                ball@ == BallModel::waiting_at(pos.x as int, pos.y as int, rightward, downward),
    {
        let rightward = coin_flip();
        let downward = coin_flip();
        let ball = Ball::with_direction(pos, rightward, downward);
        assert(ball@ == BallModel::waiting_at(pos.x as int, pos.y as int, rightward, downward));
        ball
    }

    /// Puts the ball back for the next serve: waiting at the centre of the
    /// viewport, set to leave in the given direction.
    pub fn reset_with_direction(&mut self, viewport: &Viewport, rightward: bool, downward: bool)
        requires
            viewport.wf(),
        ensures
            final(self)@ == old(self)@.reset(viewport@, rightward, downward),
    {
        self.state = BallState::Inactive;
        self.circle.x = viewport.width / 2;
        self.circle.y = viewport.height / 2;
        self.speed.x = speed_toward(rightward);
        self.speed.y = speed_toward(downward);
    }

    /// Puts the ball back for the next serve: waiting at the centre of the
    /// viewport, set to leave in a direction drawn at random, each axis by
    /// one draw of its own.
    pub fn reset_position(&mut self, viewport: &Viewport)
        requires
            viewport.wf(),
        ensures
            exists|rightward: bool, downward: bool|
                final(self)@ == old(self)@.reset(viewport@, rightward, downward),
    {
        let rightward = coin_flip();
        let downward = coin_flip();
        self.reset_with_direction(viewport, rightward, downward);
        assert(self@ == old(self)@.reset(viewport@, rightward, downward));
    }

    /// Sets a waiting ball in motion.
    pub fn activate_ball(&mut self)
        ensures
            final(self)@ == (BallModel { state: BallState::Active, ..old(self)@ }),
    {
        self.state = BallState::Active;
    }

    /// Advances the ball by one tick.
    ///
    /// `pad_list` holds the paddles' rectangles in the order in which the
    /// ball meets them, and `serve` says whether the serve key went down in
    /// this tick. When the ball leaves on the left or the right, `score` gets
    /// the point and the ball is reset in a direction drawn at random.
    pub fn update(
        &mut self,
        pad_list: Vec<Rect>,
        score: &mut Score,
        serve: bool,
        viewport: &Viewport,
    )
        requires
            old(self).wf(),
            viewport.wf(),
            forall|i: int| 0 <= i < pad_list@.len() ==> (#[trigger] pad_list@[i]).wf(),
            old(self).state == BallState::Active ==> in_coord_range(old(self)@.moved().y),
            old(self)@.exits_left() ==> old(score)@.enemy < u32::MAX,
            old(self)@.exits_right(viewport@) ==> old(score)@.player < u32::MAX,
        ensures
            final(self).wf(),
            exists|rightward: bool, downward: bool|
                final(self)@ == old(self)@.step(
                    rect_views(pad_list@),
                    viewport@,
                    serve,
                    rightward,
                    downward,
                ),
            final(score)@ == score_step(old(score)@, old(self)@, viewport@),
    {
        let ghost pads = rect_views(pad_list@);
        match self.state {
            BallState::Active => {
                self.circle.x = self.circle.x + self.speed.x;
                self.circle.y = self.circle.y + self.speed.y;
                if self.circle.x < 0 {
                    score.increment_enemy();
                    let ghost gone = self@;
                    self.reset_position(viewport);
                    proof {
                        let (rightward, downward) = choose|rightward: bool, downward: bool|
                            self@ == gone.reset(viewport@, rightward, downward);
                        assert(self@ == old(self)@.step(pads, viewport@, serve, rightward, downward));
                    }
                } else if self.circle.x > viewport.width {
                    score.increment_player();
                    let ghost gone = self@;
                    self.reset_position(viewport);
                    proof {
                        let (rightward, downward) = choose|rightward: bool, downward: bool|
                            self@ == gone.reset(viewport@, rightward, downward);
                        assert(self@ == old(self)@.step(pads, viewport@, serve, rightward, downward));
                    }
                } else {
                    if self.circle.y < 0 || self.circle.y > viewport.height {
                        self.speed.y = -self.speed.y;
                    }
                    let ghost at = self@.circle;
                    let ghost bounced = (self@.dx, self@.dy);
                    let mut i: usize = 0;
                    while i < pad_list.len()
                        invariant
                            0 <= i <= pad_list.len(),
                            self.wf(),
                            self.state == BallState::Active,
                            self@.circle == at,
                            pads == rect_views(pad_list@),
                            forall|j: int| 0 <= j < pad_list@.len() ==> (#[trigger] pad_list@[j]).wf(),
                            (self@.dx, self@.dy) == resolve_all(at, bounced, pads.take(i as int)),
                        decreases pad_list.len() - i,
                    {
                        let velocity = self.resolve_collision(&pad_list[i]);
                        proof {
                            lemma_resolve_keeps_velocity_valid(
                                at,
                                (self@.dx, self@.dy),
                                pad_list@[i as int]@,
                            );
                            assert(pads.take(i + 1).drop_last() == pads.take(i as int));
                            assert(pads.take(i + 1).last() == pad_list@[i as int]@);
                        }
                        self.speed.x = velocity.x;
                        self.speed.y = velocity.y;
                        i = i + 1;
                    }
                    proof {
                        assert(pads.take(pad_list.len() as int) == pads);
                        assert(self@ == old(self)@.step(pads, viewport@, serve, true, true));
                    }
                }
            },
            BallState::Inactive => {
                if serve {
                    self.activate_ball();
                }
                assert(self@ == old(self)@.step(pads, viewport@, serve, true, true));
            },
        }
    }
}

/// Meeting a paddle leaves a valid velocity valid: the ball keeps full speed
/// along x, and the deflection along y never exceeds full speed.
pub proof fn lemma_resolve_keeps_velocity_valid(
    circle: CircleModel,
    velocity: (int, int),
    pad: RectModel,
)
    requires
        valid_velocity(velocity.0, velocity.1),
        pad.h > 0,
    ensures
        valid_velocity(resolve(circle, velocity, pad).0, resolve(circle, velocity, pad).1),
{
    if hits_face(circle, velocity.0, pad) {
        lemma_deflection_bounded(circle, pad);
    }
}

/// A ball level with the face of a paddle is deflected by at most
/// `BALL_SPEED`, upwards if it is above the middle and downwards if below.
pub proof fn lemma_deflection_bounded(circle: CircleModel, pad: RectModel)
    requires
        pad.h > 0,
        pad.y <= circle.y <= pad.bottom(),
    ensures
        -BALL_SPEED <= deflection(circle, pad) <= BALL_SPEED,
        2 * circle.y <= 2 * pad.y + pad.h ==> deflection(circle, pad) <= 0,
        2 * circle.y >= 2 * pad.y + pad.h ==> deflection(circle, pad) >= 0,
{
    let twice_d = 2 * pad.y + pad.h - 2 * circle.y;
    let m = if twice_d >= 0 { twice_d } else { -twice_d };
    let h = pad.h;
    assert(0 <= m <= h);
    assert(0 <= (m * BALL_SPEED) / h <= BALL_SPEED) by (nonlinear_arith)
        requires
            0 <= m <= h,
            h > 0,
            BALL_SPEED == 6,
    ;
}

/// A ball that overlaps a paddle has reached both of its side edges, so the
/// face is hit exactly when the two overlap, the centre is level with the
/// face, and the ball moves along x at all.
pub proof fn lemma_hits_face_when_overlapping(circle: CircleModel, dx: int, pad: RectModel)
    requires
        circle.r >= 0,
        pad.w >= 0,
    ensures
        hits_face(circle, dx, pad) <==> circle.overlaps_rect(pad) && pad.y <= circle.y
            <= pad.bottom() && dx != 0,
{
    let nearest_x = clamp(circle.x, pad.x, pad.right());
    let nearest_y = clamp(circle.y, pad.y, pad.bottom());
    let ex = circle.x - nearest_x;
    let ey = circle.y - nearest_y;
    let r = circle.r;
    if circle.overlaps_rect(pad) {
        assert(-r <= ex <= r) by (nonlinear_arith)
            requires
                ex * ex + ey * ey <= r * r,
                r >= 0,
        ;
    }
}

/// The deflection at the middle of the face is zero, at the top edge it is
/// `-BALL_SPEED`, and at the bottom edge it is `BALL_SPEED`.
pub proof fn lemma_deflection_at_middle_and_edges(circle: CircleModel, pad: RectModel)
    requires
        pad.h > 0,
    ensures
        2 * circle.y == 2 * pad.y + pad.h ==> deflection(circle, pad) == 0,
        circle.y == pad.y ==> deflection(circle, pad) == -BALL_SPEED,
        circle.y == pad.bottom() ==> deflection(circle, pad) == BALL_SPEED,
{
    let h = pad.h;
    assert((h * BALL_SPEED) / h == BALL_SPEED) by (nonlinear_arith)
        requires
            h > 0,
    ;
    assert((0 * BALL_SPEED) / h == 0) by (nonlinear_arith)
        requires
            h > 0,
    ;
}

/// Paddles that the ball does not hit leave its velocity as it is.
pub proof fn lemma_no_hit_no_change(circle: CircleModel, velocity: (int, int), pads: Seq<RectModel>)
    requires
        forall|i: int| 0 <= i < pads.len() ==> !hits_face(circle, velocity.0, #[trigger] pads[i]),
    ensures
        resolve_all(circle, velocity, pads) == velocity,
    decreases pads.len(),
{
    if pads.len() > 0 {
        lemma_no_hit_no_change(circle, velocity, pads.drop_last());
    }
}

/// Speed is kept: in a tick in which a ball in motion hits no paddle, the
/// magnitude of its velocity along each axis stays what it was. A bounce off
/// the top or the bottom wall changes a sign only.
///
/// A ball that leaves through a side wall is reset to full speed along both
/// axes, so for such a tick the law is stated of a ball that had full speed.
pub proof fn lemma_speed_kept(
    ball: BallModel,
    pads: Seq<RectModel>,
    viewport: ViewportModel,
    serve: bool,
    rightward: bool,
    downward: bool,
)
    requires
        ball.state == BallState::Active,
        ball.exits_left() || ball.exits_right(viewport) ==> abs(ball.dx) == BALL_SPEED && abs(
            ball.dy,
        ) == BALL_SPEED,
        !ball.exits_left() && !ball.exits_right(viewport) ==> forall|i: int|
            0 <= i < pads.len() ==> !hits_face(ball.moved(), ball.dx, #[trigger] pads[i]),
    ensures
        abs(ball.step(pads, viewport, serve, rightward, downward).dx) == abs(ball.dx),
        abs(ball.step(pads, viewport, serve, rightward, downward).dy) == abs(ball.dy),
{
    if !ball.exits_left() && !ball.exits_right(viewport) {
        let at = ball.moved();
        lemma_no_hit_no_change(at, (ball.dx, BallModel::wall_bounce(at, ball.dy, viewport)), pads);
    }
}

/// A valid velocity stays valid through any tick.
pub proof fn lemma_step_keeps_velocity_valid(
    ball: BallModel,
    pads: Seq<RectModel>,
    viewport: ViewportModel,
    serve: bool,
    rightward: bool,
    downward: bool,
)
    requires
        valid_velocity(ball.dx, ball.dy),
        forall|i: int| 0 <= i < pads.len() ==> (#[trigger] pads[i]).h > 0,
    ensures
        valid_velocity(
            ball.step(pads, viewport, serve, rightward, downward).dx,
            ball.step(pads, viewport, serve, rightward, downward).dy,
        ),
{
    let at = ball.moved();
    lemma_resolve_all_keeps_velocity_valid(
        at,
        (ball.dx, BallModel::wall_bounce(at, ball.dy, viewport)),
        pads,
    );
}

/// Meeting any number of paddles leaves a valid velocity valid.
pub proof fn lemma_resolve_all_keeps_velocity_valid(
    circle: CircleModel,
    velocity: (int, int),
    pads: Seq<RectModel>,
)
    requires
        valid_velocity(velocity.0, velocity.1),
        forall|i: int| 0 <= i < pads.len() ==> (#[trigger] pads[i]).h > 0,
    ensures
        valid_velocity(
            resolve_all(circle, velocity, pads).0,
            resolve_all(circle, velocity, pads).1,
        ),
    decreases pads.len(),
{
    if pads.len() > 0 {
        lemma_resolve_all_keeps_velocity_valid(circle, velocity, pads.drop_last());
        lemma_resolve_keeps_velocity_valid(
            circle,
            resolve_all(circle, velocity, pads.drop_last()),
            pads.last(),
        );
    }
}

/// Scoring is exclusive: a tick gives at most one point, to one side only,
/// and it gives a point exactly when the ball is in motion and the tick takes
/// its centre out of `[0, viewport.width]`.
pub proof fn lemma_scoring_exclusive(score: ScoreModel, ball: BallModel, viewport: ViewportModel)
    ensures
        ({
            let after = score_step(score, ball, viewport);
            let left_field = ball.state == BallState::Active && !(0 <= ball.moved().x
                <= viewport.width);
            &&& after.player == score.player || after.enemy == score.enemy
            &&& score.player <= after.player <= score.player + 1
            &&& score.enemy <= after.enemy <= score.enemy + 1
            &&& left_field <==> after.player + after.enemy == score.player + score.enemy + 1
            &&& !left_field <==> after == score
        }),
{
}

/// Resetting is idempotent: after one reset and after a second one the ball
/// waits at the centre of the viewport with its radius unchanged, whatever
/// its velocity was, and the second reset gives what a single reset with the
/// same draw gives.
pub proof fn lemma_reset_twice(
    ball: BallModel,
    viewport: ViewportModel,
    rightward: bool,
    downward: bool,
    next_rightward: bool,
    next_downward: bool,
)
    ensures
        ({
            let once = ball.reset(viewport, rightward, downward);
            let twice = once.reset(viewport, next_rightward, next_downward);
            let centre = CircleModel {
                x: viewport.width / 2,
                y: viewport.height / 2,
                r: ball.circle.r,
            };
            &&& once.state == BallState::Inactive
            &&& once.circle == centre
            &&& twice.state == BallState::Inactive
            &&& twice.circle == centre
            &&& twice == ball.reset(viewport, next_rightward, next_downward)
        }),
{
}

/// Serving is gated: a waiting ball keeps its place and its velocity through
/// a tick, and is set in motion exactly when the serve key went down.
pub proof fn lemma_waiting_step(
    ball: BallModel,
    pads: Seq<RectModel>,
    viewport: ViewportModel,
    serve: bool,
    rightward: bool,
    downward: bool,
)
    requires
        ball.state == BallState::Inactive,
    ensures
        ball.step(pads, viewport, serve, rightward, downward) == (BallModel {
            state: if serve {
                BallState::Active
            } else {
                BallState::Inactive
            },
            ..ball
        }),
{
}

/// A waiting ball is frozen: through any number of ticks without a serve it
/// stays exactly as it is.
pub proof fn lemma_waiting_ball_frozen(
    ball: BallModel,
    viewport: ViewportModel,
    ticks: Seq<BallTick>,
)
    requires
        ball.state == BallState::Inactive,
        forall|i: int| 0 <= i < ticks.len() ==> !(#[trigger] ticks[i]).serve,
    ensures
        run(ball, viewport, ticks) == ball,
    decreases ticks.len(),
{
    if ticks.len() > 0 {
        lemma_waiting_ball_frozen(ball, viewport, ticks.drop_last());
    }
}

} // verus!
