use vstd::prelude::*;
use crate::geometry::Arena;

verus! {

/// How many simulation ticks the host is asked to run per second.
pub const TARGET_UPS: u32 = 60;

/// The window's title.
pub const WINDOW_TITLE: &'static str = "breakout_rs";

/// The window's width at startup, which is also the least it can shrink to.
pub const WINDOW_WIDTH: u32 = 800;

/// The window's height at startup, which is also the least it can shrink to.
pub const WINDOW_HEIGHT: u32 = 600;

/// What the host needs to open the window. Nothing here can be changed at
/// run time.
#[derive(Clone, Copy, Debug, PartialEq, Eq)]
pub struct WindowSettings {
    pub title: &'static str,
    pub width: u32,
    pub height: u32,
    pub min_width: u32,
    pub min_height: u32,
    pub resizable: bool,
}

/// The window's settings, and the arena that a window of that size gives.
pub fn setup_conf() -> (conf: (WindowSettings, Arena))
    ensures
        conf.0.title@ == "breakout_rs"@,
        conf.0.width == 800,
        conf.0.height == 600,
        conf.0.min_width == 800,
        conf.0.min_height == 600,
        !conf.0.resizable,
        conf.1 == (Arena { width: 800, height: 600 }),
{
    let settings = WindowSettings {
        title: WINDOW_TITLE,
        width: WINDOW_WIDTH,
        height: WINDOW_HEIGHT,
        min_width: WINDOW_WIDTH,
        min_height: WINDOW_HEIGHT,
        resizable: false,
    };
    (settings, Arena { width: WINDOW_WIDTH, height: WINDOW_HEIGHT })
}

} // verus!
