use vstd::prelude::*;
use crate::geometry::{Arena, Point, fits_coordinate};

verus! {

/// The ball as contracts see it: centre, radius and velocity over unbounded
/// integers.
pub struct BallModel {
    pub x: int,
    pub y: int,
    pub radius: int,
    pub vx: int,
    pub vy: int,
}

impl BallModel {
    pub open spec fn left_edge(self) -> int {
        self.x - self.radius
    }

    pub open spec fn right_edge(self) -> int {
        self.x + self.radius
    }

    pub open spec fn top_edge(self) -> int {
        self.y - self.radius
    }

    pub open spec fn bottom_edge(self) -> int {
        self.y + self.radius
    }

    /// The ball one tick's displacement further along its velocity.
    pub open spec fn moved(self) -> BallModel {
        BallModel { x: self.x + self.vx, y: self.y + self.vy, ..self }
    }

    /// Whether the ball touches or has passed the left or the right border.
    /// A ball that is exactly tangent touches.
    pub open spec fn touches_side(self, arena: Arena) -> bool {
        self.left_edge() <= 0 || self.right_edge() >= arena.width
    }

    /// Whether the ball touches or has passed the top border.
    pub open spec fn touches_top(self) -> bool {
        self.top_edge() <= 0
    }

    /// The ball after the walls have acted on it: a side wall turns the
    /// horizontal velocity round, the top wall the vertical one. The position
    /// and the radius stay, and no speed is gained or lost.
    pub open spec fn reflected(self, arena: Arena) -> BallModel {
        BallModel {
            vx: if self.touches_side(arena) { -self.vx } else { self.vx },
            vy: if self.touches_top() { -self.vy } else { self.vy },
            ..self
        }
    }

    /// Whether the ball touches or has passed the bottom border.
    pub open spec fn reaches_bottom(self, arena: Arena) -> bool {
        self.bottom_edge() >= arena.height
    }

    /// Whether every field can be stored.
    pub open spec fn fits(self) -> bool {
        &&& fits_coordinate(self.x)
        &&& fits_coordinate(self.y)
        &&& fits_coordinate(self.radius)
        &&& fits_coordinate(self.vx)
        &&& fits_coordinate(self.vy)
    }
}

/// The ball.
#[derive(Clone, Copy, Debug, PartialEq, Eq)]
pub struct Ball {
    /// The centre.
    pub position: Point,
    pub radius: i64,
    /// Displacement per tick. A negative `y` moves the ball up.
    pub velocity: Point,
}

impl View for Ball {
    type V = BallModel;

    open spec fn view(&self) -> BallModel {
        BallModel {
            x: self.position.x as int,
            y: self.position.y as int,
            radius: self.radius as int,
            vx: self.velocity.x as int,
            vy: self.velocity.y as int,
        }
    }
}

impl Ball {
    /// Moves the ball by its velocity. The new centre has to be storable.
    pub fn advance(&mut self)
        requires
            old(self)@.moved().fits(),
        ensures
            final(self)@ == old(self)@.moved(),
    {
        self.position.x = self.position.x + self.velocity.x;
        self.position.y = self.position.y + self.velocity.y;
    }

    /// Whether `advance` may be called: whether the centre it would reach can
    /// be stored.
    pub fn can_advance(&self) -> (ok: bool)
        ensures
            ok == self@.moved().fits(),
    {
        self.position.x.checked_add(self.velocity.x).is_some()
            && self.position.y.checked_add(self.velocity.y).is_some()
    }

    /// Whether the ball touches or has passed a side border of the arena.
    pub fn touches_side(&self, arena: &Arena) -> (touches: bool)
        ensures
            touches == self@.touches_side(*arena),
    {
        let x: i128 = self.position.x as i128;
        let radius: i128 = self.radius as i128;
        x - radius <= 0 || x + radius >= arena.width as i128
    }

    /// Whether the ball touches or has passed the top border.
    pub fn touches_top(&self) -> (touches: bool)
        ensures
            touches == self@.touches_top(),
    {
        self.position.y as i128 - self.radius as i128 <= 0
    }
}

/// Bounces the ball off the left, right and top walls. A velocity component
/// that is turned round has to have a storable negation.
pub fn ball_wall_collisions(ball: &mut Ball, arena: &Arena)
    requires
        old(ball)@.reflected(*arena).fits(),
    ensures
        final(ball)@ == old(ball)@.reflected(*arena),
{
    if ball.touches_side(arena) {
        ball.velocity.x = -ball.velocity.x;
    }
    if ball.touches_top() {
        ball.velocity.y = -ball.velocity.y;
    }
}

/// Whether `ball_wall_collisions` may be called: whether each velocity
/// component that it would turn round has a storable negation.
pub fn can_collide(ball: &Ball, arena: &Arena) -> (ok: bool)
    ensures
        ok == ball@.reflected(*arena).fits(),
{
    (!ball.touches_side(arena) || ball.velocity.x != i64::MIN)
        && (!ball.touches_top() || ball.velocity.y != i64::MIN)
}

/// Checks whether the ball is touching the bottom border, which ends the game.
pub fn check_game_lose(ball: &Ball, arena: &Arena) -> (lost: bool)
    ensures
        lost == ball@.reaches_bottom(*arena),
{
    ball.position.y as i128 + ball.radius as i128 >= arena.height as i128
}

} // verus!
