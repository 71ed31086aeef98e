use vstd::prelude::*;
use crate::geometry::{Arena, Rect, fits_coordinate};
use crate::input::Direction;

verus! {

/// The paddle as contracts see it: the same fields over unbounded integers.
pub struct PaddleModel {
    pub x: int,
    pub y: int,
    pub w: int,
    pub h: int,
    pub speed: int,
    pub direction: Option<Direction>,
}

impl PaddleModel {
    /// The paddle after it has followed its pending direction by one tick's
    /// displacement. The pending direction is used up.
    pub open spec fn moved(self) -> PaddleModel {
        PaddleModel {
            x: match self.direction {
                Some(Direction::Left) => self.x - self.speed,
                Some(Direction::Right) => self.x + self.speed,
                None => self.x,
            },
            direction: None,
            ..self
        }
    }

    /// The paddle forced back into the arena. A paddle at or beyond the left
    /// border is put on it and nothing more is done; otherwise one at or
    /// beyond the right border is put flush against it.
    pub open spec fn clamped(self, arena: Arena) -> PaddleModel {
        if self.x <= 0 {
            PaddleModel { x: 0, ..self }
        } else if self.x + self.w >= arena.width {
            PaddleModel { x: arena.width - self.w, ..self }
        } else {
            self
        }
    }

    /// Whether the paddle's horizontal extent lies within the arena.
    pub open spec fn inside(self, arena: Arena) -> bool {
        0 <= self.x && self.x + self.w <= arena.width
    }

    /// The same paddle with another pending direction.
    pub open spec fn heading(self, direction: Option<Direction>) -> PaddleModel {
        PaddleModel { direction, ..self }
    }

    /// Whether every field can be stored.
    pub open spec fn fits(self) -> bool {
        &&& fits_coordinate(self.x)
        &&& fits_coordinate(self.y)
        &&& fits_coordinate(self.w)
        &&& fits_coordinate(self.h)
        &&& fits_coordinate(self.speed)
    }
}

/// The player's paddle.
#[derive(Clone, Copy, Debug, PartialEq, Eq)]
pub struct PlayerPaddle {
    pub rect: Rect,
    /// Displacement per tick while a direction is pending.
    pub speed: i64,
    /// The direction asked for since the last tick, if any.
    pub direction: Option<Direction>,
}

impl View for PlayerPaddle {
    type V = PaddleModel;

    open spec fn view(&self) -> PaddleModel {
        PaddleModel {
            x: self.rect.x as int,
            y: self.rect.y as int,
            w: self.rect.w as int,
            h: self.rect.h as int,
            speed: self.speed as int,
            direction: self.direction,
        }
    }
}

impl PlayerPaddle {
    /// Moves the paddle by its speed in the pending direction and clears that
    /// direction. The new position has to be storable.
    pub fn move_self(&mut self)
        requires
            old(self)@.moved().fits(),
        ensures
            final(self)@ == old(self)@.moved(),
    {
        match self.direction {
            Some(Direction::Left) => {
                self.rect.x = self.rect.x - self.speed;
            },
            Some(Direction::Right) => {
                self.rect.x = self.rect.x + self.speed;
            },
            None => {},
        }
        self.direction = None;
    }

    /// Whether `move_self` may be called: whether the position it would reach
    /// can be stored.
    pub fn can_move(&self) -> (ok: bool)
        ensures
            ok == self@.moved().fits(),
    {
        match self.direction {
            Some(Direction::Left) => self.rect.x.checked_sub(self.speed).is_some(),
            Some(Direction::Right) => self.rect.x.checked_add(self.speed).is_some(),
            None => true,
        }
    }
}

/// Keeps the paddle on the screen. Afterwards a paddle no wider than the arena
/// lies within it; a wider one cannot, and ends where `clamped` says.
pub fn force_player_boundaries(player: &mut PlayerPaddle, arena: &Arena)
    ensures
        final(player)@ == old(player)@.clamped(*arena),
        old(player)@.w <= arena.width ==> final(player)@.inside(*arena),
{
    if player.rect.x <= 0 {
        player.rect.x = 0;
        return;
    }
    let width: i128 = arena.width as i128;
    let right: i128 = player.rect.x as i128 + player.rect.w as i128;
    if right >= width {
        let flush: i128 = width - player.rect.w as i128;
        player.rect.x = flush as i64;
    }
}

} // verus!
