use vstd::prelude::*;
use crate::ball::BallModel;
use crate::game::GameModel;
use crate::geometry::Arena;
use crate::input::{Direction, ScanCode, direction_of};
use crate::paddle::PaddleModel;

verus! {

/// Wherever the paddle is, once it has been forced back into an arena that is
/// at least as wide as the paddle, its left edge is not left of the arena and
/// its right edge not right of it.
pub proof fn paddle_stays_inside(paddle: PaddleModel, arena: Arena)
    requires
        paddle.w <= arena.width,
    ensures
        0 <= paddle.clamped(arena).x,
        paddle.clamped(arena).x + paddle.clamped(arena).w <= arena.width,
{
}

/// After every tick the paddle lies within the arena, provided the arena is
/// at least as wide as the paddle.
pub proof fn tick_keeps_paddle_inside(game: GameModel, arena: Arena)
    requires
        game.paddle.w <= arena.width,
    ensures
        game.tick(arena).paddle.inside(arena),
{
}

/// A ball at or beyond a side wall has its horizontal velocity turned round:
/// the sign changes and the magnitude does not.
pub proof fn side_wall_turns_ball(ball: BallModel, arena: Arena)
    requires
        ball.left_edge() <= 0 || ball.right_edge() >= arena.width,
    ensures
        ball.reflected(arena).vx == -ball.vx,
        vstd::math::abs(ball.reflected(arena).vx) == vstd::math::abs(ball.vx),
{
}

/// A ball at or beyond the top wall has its vertical velocity turned round:
/// the sign changes and the magnitude does not.
pub proof fn top_wall_turns_ball(ball: BallModel, arena: Arena)
    requires
        ball.top_edge() <= 0,
    ensures
        ball.reflected(arena).vy == -ball.vy,
        vstd::math::abs(ball.reflected(arena).vy) == vstd::math::abs(ball.vy),
{
}

/// The walls never change how fast the ball is, nor where or how large it is.
pub proof fn walls_keep_speed(ball: BallModel, arena: Arena)
    ensures
        vstd::math::abs(ball.reflected(arena).vx) == vstd::math::abs(ball.vx),
        vstd::math::abs(ball.reflected(arena).vy) == vstd::math::abs(ball.vy),
        ball.reflected(arena).x == ball.x,
        ball.reflected(arena).y == ball.y,
        ball.reflected(arena).radius == ball.radius,
{
}

/// Over a whole tick the walls act on the ball where the tick's movement has
/// taken it: the horizontal velocity is turned round exactly when the moved
/// ball is at or beyond a side wall, the vertical one exactly when it is at
/// or beyond the top wall, and the radius stays what it was.
pub proof fn tick_turns_ball_at_walls(game: GameModel, arena: Arena)
    ensures
        game.tick(arena).ball.x == game.ball.x + game.ball.vx,
        game.tick(arena).ball.y == game.ball.y + game.ball.vy,
        game.tick(arena).ball.radius == game.ball.radius,
        game.tick(arena).ball.vx == if game.tick(arena).ball.left_edge() <= 0
            || game.tick(arena).ball.right_edge() >= arena.width {
            -game.ball.vx
        } else {
            game.ball.vx
        },
        game.tick(arena).ball.vy == if game.tick(arena).ball.top_edge() <= 0 {
            -game.ball.vy
        } else {
            game.ball.vy
        },
{
}

/// A ball that is at or beyond a side wall before a tick, and still is once
/// the tick has moved it, leaves the tick with its horizontal velocity turned
/// round.
pub proof fn tick_turns_ball_at_side_wall(game: GameModel, arena: Arena)
    requires
        game.ball.touches_side(arena),
        game.ball.moved().touches_side(arena),
    ensures
        game.tick(arena).ball.vx == -game.ball.vx,
        vstd::math::abs(game.tick(arena).ball.vx) == vstd::math::abs(game.ball.vx),
{
}

/// A ball that is at or beyond the top wall before a tick, and still is once
/// the tick has moved it, leaves the tick with its vertical velocity turned
/// round.
pub proof fn tick_turns_ball_at_top_wall(game: GameModel, arena: Arena)
    requires
        game.ball.touches_top(),
        game.ball.moved().touches_top(),
    ensures
        game.tick(arena).ball.vy == -game.ball.vy,
        vstd::math::abs(game.tick(arena).ball.vy) == vstd::math::abs(game.ball.vy),
{
}

/// A tick finishes a running game exactly when it leaves the ball's bottom
/// edge at or below the arena's bottom border, and a finished game stays
/// finished.
pub proof fn tick_finishes_at_bottom(game: GameModel, arena: Arena)
    ensures
        !game.finished ==> (game.tick(arena).finished <==> game.tick(arena).ball.bottom_edge()
            >= arena.height),
        game.finished ==> game.tick(arena).finished,
{
}

/// Once finished, the game is finished after any number of further ticks,
/// whatever size the arena has during each.
pub proof fn finished_is_permanent(game: GameModel, arenas: Seq<Arena>)
    requires
        game.finished,
    ensures
        game.after(arenas).finished,
    decreases arenas.len(),
{
    if arenas.len() > 0 {
        finished_is_permanent(game, arenas.drop_last());
    }
}

/// The ball's radius is the same after any number of ticks, and so is its
/// speed along each axis: walls turn the velocity round and never scale it.
pub proof fn radius_and_speed_are_constant(game: GameModel, arenas: Seq<Arena>)
    ensures
        game.after(arenas).ball.radius == game.ball.radius,
        vstd::math::abs(game.after(arenas).ball.vx) == vstd::math::abs(game.ball.vx),
        vstd::math::abs(game.after(arenas).ball.vy) == vstd::math::abs(game.ball.vy),
    decreases arenas.len(),
{
    if arenas.len() > 0 {
        radius_and_speed_are_constant(game, arenas.drop_last());
    }
}

/// Ticks move the paddle sideways only, and change neither its size nor its
/// speed.
pub proof fn paddle_keeps_its_shape(game: GameModel, arenas: Seq<Arena>)
    ensures
        game.after(arenas).paddle.y == game.paddle.y,
        game.after(arenas).paddle.w == game.paddle.w,
        game.after(arenas).paddle.h == game.paddle.h,
        game.after(arenas).paddle.speed == game.paddle.speed,
    decreases arenas.len(),
{
    if arenas.len() > 0 {
        paddle_keeps_its_shape(game, arenas.drop_last());
    }
}

/// After any run of at least one tick the paddle lies within the arena of
/// the last tick, provided that arena is at least as wide as the paddle.
pub proof fn paddle_is_inside_after_every_tick(game: GameModel, arenas: Seq<Arena>)
    requires
        arenas.len() > 0,
        game.paddle.w <= arenas.last().width,
    ensures
        game.after(arenas).paddle.inside(arenas.last()),
{
    paddle_keeps_its_shape(game, arenas.drop_last());
}

/// A tick uses up the pending direction, so a key moves the paddle in one
/// tick only: the tick after it leaves the paddle where it was, but for
/// forcing it back into the arena of that tick.
pub proof fn key_moves_paddle_once(game: GameModel, first: Arena, second: Arena)
    ensures
        game.tick(first).paddle.direction is None,
        game.tick(first).tick(second).paddle == game.tick(first).paddle.clamped(second),
{
}

/// Of two keys that go down before the same tick, the later one decides.
pub proof fn last_key_wins(game: GameModel, first: ScanCode, second: ScanCode)
    ensures
        game.key_down(first).key_down(second) == game.key_down(second),
{
}

/// Exactly four scan codes stand for a direction.
pub proof fn scancodes_with_a_direction(scancode: ScanCode)
    ensures
        direction_of(scancode) == Some(Direction::Left) <==> scancode == 30 || scancode == 57419,
        direction_of(scancode) == Some(Direction::Right) <==> scancode == 32 || scancode == 57421,
        direction_of(scancode) is None <==> scancode != 30 && scancode != 32 && scancode != 57419
            && scancode != 57421,
{
}

} // verus!
