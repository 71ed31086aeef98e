use vstd::prelude::*;
use crate::game::GameState;
use crate::geometry::{Point, Rect};

verus! {

/// One thing for the host to paint. The host chooses colours and how finely
/// curves are tessellated.
#[derive(Clone, Copy, Debug, PartialEq, Eq)]
pub enum DrawCommand {
    /// The frames-per-second label in the top-left corner. The host measures
    /// the rate and formats the text.
    FpsLabel,
    /// A filled rectangle.
    Quad(Rect),
    /// A filled circle.
    Circle { center: Point, radius: i64 },
    /// The end-of-game banner, a rounded rectangle that the host lays out.
    Banner,
}

/// What a frame shows, in painting order: the label, the paddle, the ball,
/// and the banner once the game is finished.
pub open spec fn draw_list(state: GameState) -> Seq<DrawCommand> {
    let playing = seq![
        DrawCommand::FpsLabel,
        DrawCommand::Quad(state.player.rect),
        DrawCommand::Circle { center: state.ball.position, radius: state.ball.radius },
    ];
    if state.finished {
        playing.push(DrawCommand::Banner)
    } else {
        playing
    }
}

impl GameState {
    /// Lists what to paint for the current frame. The state is only read.
    pub fn draw(&self) -> (commands: Vec<DrawCommand>)
        ensures
            commands@ == draw_list(*self),
    {
        let mut commands: Vec<DrawCommand> = Vec::new();
        commands.push(DrawCommand::FpsLabel);
        commands.push(DrawCommand::Quad(self.player.rect));
        commands.push(DrawCommand::Circle { center: self.ball.position, radius: self.ball.radius });
        if self.finished {
            commands.push(DrawCommand::Banner);
        }
        assert(commands@ =~= draw_list(*self));
        commands
    }
}

} // verus!
