use breakout::ball::Ball;
use breakout::game::{GameState, BALL_RADIUS, BALL_SPEED, PADDLE_SPEED};
use breakout::geometry::{Arena, Point, Rect};
use breakout::input::Direction;
use breakout::paddle::PlayerPaddle;

const ARENA: Arena = Arena { width: 800, height: 600 };

fn state(paddle_x: i64, direction: Option<Direction>, ball: Ball) -> GameState {
    GameState {
        finished: false,
        player: PlayerPaddle {
            rect: Rect { x: paddle_x, y: 540, w: 80, h: 30 },
            speed: 10,
            direction,
        },
        ball,
    }
}

fn ball(x: i64, y: i64, vx: i64, vy: i64) -> Ball {
    Ball { position: Point { x, y }, radius: 20, velocity: Point { x: vx, y: vy } }
}

#[test]
fn new_game_in_the_default_arena() {
    let s = GameState::new(&ARENA);
    assert_eq!(
        s,
        GameState {
            finished: false,
            player: PlayerPaddle {
                rect: Rect { x: 80, y: 540, w: 80, h: 30 },
                speed: 10,
                direction: None,
            },
            ball: Ball {
                position: Point { x: 400, y: 300 },
                radius: 20,
                velocity: Point { x: 7, y: -7 },
            },
        }
    );
}

#[test]
fn new_game_rounds_down_in_an_odd_arena() {
    let s = GameState::new(&Arena { width: 1023, height: 769 });
    assert_eq!(s.player.rect, Rect { x: 102, y: 693, w: 102, h: 38 });
    assert_eq!(s.ball.position, Point { x: 511, y: 384 });
}

#[test]
fn new_game_in_the_largest_and_the_empty_arena() {
    let big = GameState::new(&Arena { width: u32::MAX, height: u32::MAX });
    assert_eq!(big.player.rect, Rect { x: 429496729, y: 3865470566, w: 429496729, h: 214748364 });
    assert_eq!(big.ball.position, Point { x: 2147483647, y: 2147483647 });
    let empty = GameState::new(&Arena { width: 0, height: 0 });
    assert_eq!(empty.player.rect, Rect { x: 0, y: 0, w: 0, h: 0 });
    assert_eq!(empty.ball.position, Point { x: 0, y: 0 });
}

#[test]
fn tuning_constants() {
    assert_eq!(PADDLE_SPEED, 10);
    assert_eq!(BALL_RADIUS, 20);
    assert_eq!(BALL_SPEED, 7);
}

#[test]
fn first_tick_of_a_new_game() {
    let mut s = GameState::new(&ARENA);
    assert!(s.can_update(&ARENA));
    s.update(&ARENA);
    assert_eq!(s.player.rect, Rect { x: 80, y: 540, w: 80, h: 30 });
    assert_eq!(s.ball, ball(407, 293, 7, -7));
    assert!(!s.finished);
}

#[test]
fn paddle_moving_right_at_the_border_clamps_in_the_same_tick() {
    let mut s = state(790, Some(Direction::Right), ball(400, 300, 0, 0));
    assert!(s.can_update(&ARENA));
    s.update(&ARENA);
    assert_eq!(s.player.rect.x, 720);
    assert_eq!(s.player.direction, None);
}

#[test]
fn paddle_moving_left_at_the_border_clamps_in_the_same_tick() {
    let mut s = state(4, Some(Direction::Left), ball(400, 300, 0, 0));
    s.update(&ARENA);
    assert_eq!(s.player.rect.x, 0);
}

#[test]
fn paddle_moves_once_per_key() {
    let mut s = state(300, Some(Direction::Left), ball(400, 300, 0, 0));
    s.update(&ARENA);
    assert_eq!(s.player.rect.x, 290);
    s.update(&ARENA);
    assert_eq!(s.player.rect.x, 290);
}

#[test]
fn walls_act_on_the_ball_where_the_tick_has_moved_it() {
    // reaches the wall during the tick: reflected
    let mut arriving = state(80, None, ball(25, 300, -5, 0));
    arriving.update(&ARENA);
    assert_eq!(arriving.ball, ball(20, 300, 5, 0));
    // at the wall before the tick, clear of it after moving: not reflected
    let mut leaving = state(80, None, ball(20, 300, 5, 0));
    leaving.update(&ARENA);
    assert_eq!(leaving.ball, ball(25, 300, 5, 0));
    // at the wall before and after moving: reflected
    let mut resting = state(80, None, ball(20, 300, 0, 0));
    resting.update(&ARENA);
    assert_eq!(resting.ball, ball(20, 300, 0, 0));
    let mut deeper = state(80, None, ball(10, 300, -5, 0));
    deeper.update(&ARENA);
    assert_eq!(deeper.ball, ball(5, 300, 5, 0));
}

#[test]
fn top_wall_turns_the_ball_down_within_a_tick() {
    let mut s = state(80, None, ball(400, 27, 0, -7));
    s.update(&ARENA);
    assert_eq!(s.ball, ball(400, 20, 0, 7));
    s.update(&ARENA);
    assert_eq!(s.ball, ball(400, 27, 0, 7));
}

#[test]
fn ball_at_the_bottom_finishes_the_game() {
    let mut s = state(80, None, ball(400, 590, 0, 0));
    assert!(!s.finished);
    s.update(&ARENA);
    assert!(s.finished);
}

#[test]
fn ball_reaching_the_bottom_during_the_tick_finishes_the_game() {
    let mut s = state(80, None, ball(400, 573, 0, 7));
    s.update(&ARENA);
    assert_eq!(s.ball.position.y, 580);
    assert!(s.finished);
    let mut short = state(80, None, ball(400, 572, 0, 7));
    short.update(&ARENA);
    assert!(!short.finished);
}

#[test]
fn ball_leaving_the_bottom_during_the_tick_does_not_finish_the_game() {
    let mut s = state(80, None, ball(400, 580, 0, -7));
    s.update(&ARENA);
    assert!(!s.finished);
}

#[test]
fn a_finished_game_stays_finished() {
    let mut s = state(80, None, ball(400, 300, 7, -7));
    s.finished = true;
    for _ in 0..200 {
        assert!(s.can_update(&ARENA));
        s.update(&ARENA);
        assert!(s.finished);
    }
}

#[test]
fn a_shrinking_arena_moves_the_walls() {
    let small = Arena { width: 400, height: 300 };
    let mut s = state(380, None, ball(390, 290, 0, 0));
    s.update(&small);
    assert_eq!(s.player.rect.x, 320);
    assert!(s.finished);
}

#[test]
fn a_whole_game_without_input() {
    let mut s = GameState::new(&ARENA);
    let mut ticks = 0;
    while !s.finished {
        assert!(s.can_update(&ARENA));
        s.update(&ARENA);
        ticks += 1;
        assert_eq!(s.ball.radius, 20);
        assert_eq!(s.ball.velocity.x.abs(), 7);
        assert_eq!(s.ball.velocity.y.abs(), 7);
        if ticks == 40 {
            assert_eq!(s.ball, ball(680, 20, 7, 7));
        }
        if ticks == 55 {
            assert_eq!(s.ball, ball(785, 125, -7, 7));
        }
        assert!(ticks <= 1000);
    }
    assert_eq!(ticks, 120);
    assert_eq!(s.ball, ball(330, 580, -7, 7));
    assert_eq!(s.player.rect, Rect { x: 80, y: 540, w: 80, h: 30 });
}

#[test]
fn a_tick_that_cannot_be_stored_is_announced() {
    assert!(!state(80, None, ball(i64::MAX, 300, 1, 0)).can_update(&ARENA));
    assert!(!state(80, None, ball(400, i64::MAX - 6, 0, 7)).can_update(&ARENA));
    assert!(state(80, None, ball(400, i64::MAX - 7, 0, 7)).can_update(&ARENA));
    assert!(!state(i64::MAX, Some(Direction::Right), ball(400, 300, 0, 0)).can_update(&ARENA));
    assert!(state(i64::MAX, Some(Direction::Left), ball(400, 300, 0, 0)).can_update(&ARENA));
    // a velocity that the wall would have to turn round, and cannot
    assert!(!state(80, None, ball(20, 300, i64::MIN, 0)).can_update(&ARENA));
    assert!(!state(80, None, ball(400, 21, 0, i64::MIN)).can_update(&ARENA));
    let mut turned = state(80, None, ball(i64::MIN + 1, 300, -1, 0));
    assert!(turned.can_update(&ARENA));
    turned.update(&ARENA);
    assert_eq!(turned.ball, ball(i64::MIN, 300, 1, 0));
}
