use vstd::prelude::*;
use crate::ball::{Ball, BallModel, ball_wall_collisions, can_collide, check_game_lose};
use crate::geometry::{Arena, Point, Rect};
use crate::input::{Direction, ScanCode, direction_of};
use crate::paddle::{PaddleModel, PlayerPaddle, force_player_boundaries};

verus! {

/// The paddle's displacement per tick.
pub const PADDLE_SPEED: i64 = 10;

/// The ball's radius, which never changes.
pub const BALL_RADIUS: i64 = 20;

/// The ball's displacement per tick along each axis at the start.
pub const BALL_SPEED: i64 = 7;

/// The whole game as contracts see it.
pub struct GameModel {
    pub paddle: PaddleModel,
    pub ball: BallModel,
    pub finished: bool,
}

impl GameModel {
    /// The game at startup in an arena of the given size: the paddle a tenth
    /// of the arena wide near the bottom, the ball in the middle, heading up
    /// and to the right.
    pub open spec fn initial(arena: Arena) -> GameModel {
        GameModel {
            paddle: PaddleModel {
                x: (arena.width / 10) as int,
                y: arena.height - arena.height / 10,
                w: (arena.width / 10) as int,
                h: (arena.height / 20) as int,
                speed: 10,
                direction: None,
            },
            ball: BallModel {
                x: (arena.width / 2) as int,
                y: (arena.height / 2) as int,
                radius: 20,
                vx: 7,
                vy: -7,
            },
            finished: false,
        }
    }

    /// The game one tick later. The paddle moves, then the ball; the paddle is
    /// forced back into the arena; the ball bounces off the walls where it now
    /// is; and the game is finished once the ball has reached the bottom.
    pub open spec fn tick(self, arena: Arena) -> GameModel {
        let ball = self.ball.moved().reflected(arena);
        GameModel {
            paddle: self.paddle.moved().clamped(arena),
            ball,
            finished: self.finished || ball.reaches_bottom(arena),
        }
    }

    /// Whether every value that a tick stores can be stored.
    pub open spec fn can_tick(self, arena: Arena) -> bool {
        &&& self.paddle.moved().fits()
        &&& self.ball.moved().fits()
        &&& self.ball.moved().reflected(arena).fits()
    }

    /// The game after one tick for each entry of `arenas`, in order; the
    /// entry is the arena's size during that tick.
    pub open spec fn after(self, arenas: Seq<Arena>) -> GameModel
        decreases arenas.len(),
    {
        if arenas.len() == 0 {
            self
        } else {
            self.after(arenas.drop_last()).tick(arenas.last())
        }
    }

    /// The same game after a key went down: the paddle's pending direction is
    /// what the key stands for, whatever was pending before.
    pub open spec fn key_down(self, scancode: ScanCode) -> GameModel {
        GameModel { paddle: self.paddle.heading(direction_of(scancode)), ..self }
    }
}

/// The state of one game. Nothing resets it: it lives as long as the process.
#[derive(Clone, Copy, Debug, PartialEq, Eq)]
pub struct GameState {
    /// Set when the ball reaches the bottom border, and never cleared. Whether
    /// the player then sees a win or a loss is the presentation's choice.
    pub finished: bool,
    pub player: PlayerPaddle,
    pub ball: Ball,
}

impl View for GameState {
    type V = GameModel;

    open spec fn view(&self) -> GameModel {
        GameModel { paddle: self.player@, ball: self.ball@, finished: self.finished }
    }
}

impl GameState {
    /// Sets the game up for an arena of the given size.
    pub fn new(arena: &Arena) -> (state: GameState)
        ensures
            state@ == GameModel::initial(*arena),
    {
        let width: i64 = arena.width as i64;
        let height: i64 = arena.height as i64;
        GameState {
            finished: false,
            player: PlayerPaddle {
                rect: Rect {
                    x: width / 10,
                    y: height - height / 10,
                    w: width / 10,
                    h: height / 20,
                },
                speed: PADDLE_SPEED,
                direction: None,
            },
            ball: Ball {
                position: Point { x: width / 2, y: height / 2 },
                radius: BALL_RADIUS,
                velocity: Point { x: BALL_SPEED, y: -BALL_SPEED },
            },
        }
    }

    /// Runs one simulation tick in place.
    pub fn update(&mut self, arena: &Arena)
        requires
            old(self)@.can_tick(*arena),
        ensures
            final(self)@ == old(self)@.tick(*arena),
            old(self)@.paddle.w <= arena.width ==> final(self)@.paddle.inside(*arena),
            final(self).finished <==> old(self).finished || final(self)@.ball.reaches_bottom(
                *arena,
            ),
    {
        self.player.move_self();
        self.ball.advance();
        force_player_boundaries(&mut self.player, arena);
        ball_wall_collisions(&mut self.ball, arena);
        if check_game_lose(&self.ball, arena) {
            self.finished = true;
        }
    }

    /// Whether `update` may be called: whether every value that the tick
    /// stores can be stored.
    pub fn can_update(&self, arena: &Arena) -> (ok: bool)
        ensures
            ok == self@.can_tick(*arena),
    {
        if !self.player.can_move() || !self.ball.can_advance() {
            return false;
        }
        let mut ball = self.ball;
        ball.advance();
        can_collide(&ball, arena)
    }

    /// Records a key-down event: the key's direction becomes the paddle's
    /// pending direction. The last key before a tick wins, and a key that
    /// stands for no direction leaves none pending.
    pub fn key_down_event(&mut self, scancode: ScanCode)
        ensures
            final(self)@ == old(self)@.key_down(scancode),
    {
        self.player.direction = Direction::from_scancode(scancode);
    }
}

} // verus!
