//! Where the widget's window goes on a monitor.
use crate::text::owned;
use vstd::prelude::*;

verus! {

/// A monitor as the window system describes it.
pub struct MonitorInfo {
    pub name: String,
    pub index: usize,
    pub size: (u32, u32),
    pub position: (i32, i32),
    pub is_primary: bool,
}

/// The places a window can be put.
#[derive(Clone, Copy, Debug, PartialEq, Eq, Structural)]
pub enum Placement {
    TopLeft,
    TopRight,
    BottomLeft,
    BottomRight,
    Center,
}

/// Height kept free for the task bar at the bottom of a monitor.
pub const TASKBAR_HEIGHT: i64 = 40;

/// The placement that a text names.
pub open spec fn placement_of(s: Seq<char>) -> Option<Placement> {
    if s == "top-left"@ {
        Some(Placement::TopLeft)
    } else if s == "top-right"@ {
        Some(Placement::TopRight)
    } else if s == "bottom-left"@ {
        Some(Placement::BottomLeft)
    } else if s == "bottom-right"@ {
        Some(Placement::BottomRight)
    } else if s == "center"@ {
        Some(Placement::Center)
    } else {
        None
    }
}

/// Reads a placement text.
pub fn parse_placement(s: &String) -> (r: Option<Placement>)
    ensures
        r == placement_of(s@),
{
    if *s == owned("top-left") {
        Some(Placement::TopLeft)
    } else if *s == owned("top-right") {
        Some(Placement::TopRight)
    } else if *s == owned("bottom-left") {
        Some(Placement::BottomLeft)
    } else if *s == owned("bottom-right") {
        Some(Placement::BottomRight)
    } else if *s == owned("center") {
        Some(Placement::Center)
    } else {
        None
    }
}

/// Half of `v`, rounded toward zero.
pub open spec fn half(v: int) -> int {
    if v >= 0 {
        v / 2
    } else {
        -((-v) / 2)
    }
}

fn half_exec(v: i64) -> (r: i64)
    requires
        v > i64::MIN,
    ensures
        r == half(v as int),
{
    if v >= 0 {
        v / 2
    } else {
        -((-v) / 2)
    }
}

/// Top-left corner of a `ww` by `wh` window placed on a `mw` by `mh`
/// monitor whose own top-left corner is at (`mx`, `my`): flush with the
/// chosen edges, above the task bar at the bottom, or centred.
pub open spec fn placed_at(p: Placement, mx: int, my: int, mw: int, mh: int, ww: int, wh: int) -> (
    int,
    int,
) {
    let right = mx + mw - ww;
    let bottom = my + mh - wh - TASKBAR_HEIGHT;
    match p {
        Placement::TopLeft => (mx, my),
        Placement::TopRight => (right, my),
        Placement::BottomLeft => (mx, bottom),
        Placement::BottomRight => (right, bottom),
        Placement::Center => (mx + half(mw - ww), my + half(mh - wh)),
    }
}

/// Where the window goes on the monitor at (`mx`, `my`) of size `mw` by
/// `mh`; `None` where `position` names no placement.
pub fn window_position_on_monitor(
    position: &String,
    mx: i32,
    my: i32,
    mw: u32,
    mh: u32,
    ww: u32,
    wh: u32,
) -> (r: Option<(i64, i64)>)
    ensures
        r is None <==> placement_of(position@) is None,
        r matches Some((x, y)) ==> placement_of(position@) matches Some(p) && (x as int, y as int)
            == placed_at(p, mx as int, my as int, mw as int, mh as int, ww as int, wh as int),
{
    let p = match parse_placement(position) {
        Some(p) => p,
        None => {
            return None;
        },
    };
    let mx = mx as i64;
    let my = my as i64;
    let right = mx + mw as i64 - ww as i64;
    let bottom = my + mh as i64 - wh as i64 - TASKBAR_HEIGHT;
    let pos = match p {
        Placement::TopLeft => (mx, my),
        Placement::TopRight => (right, my),
        Placement::BottomLeft => (mx, bottom),
        Placement::BottomRight => (right, bottom),
        Placement::Center => (
            mx + half_exec(mw as i64 - ww as i64),
            my + half_exec(mh as i64 - wh as i64),
        ),
    };
    Some(pos)
}

/// Where the main window goes on its current monitor of size `mw` by `mh`.
/// The corners are computed from the monitor's origin; a window whose left
/// edge would sit at the monitor's right edge is moved left by its width.
/// `None` where `position` names no placement, or names the centre while
/// `with_center` is false.
pub fn main_window_position(position: &String, with_center: bool, mw: u32, mh: u32, ww: u32, wh: u32) -> (r:
    Option<(i64, i64)>)
    ensures
        r is None <==> (placement_of(position@) is None || (!with_center && placement_of(position@)
            == Some(Placement::Center))),
        r matches Some((x, y)) ==> placement_of(position@) matches Some(p) && {
            let raw_x = match p {
                Placement::TopRight | Placement::BottomRight => mw as int,
                Placement::Center => half(mw - ww),
                _ => 0,
            };
            let raw_y = match p {
                Placement::BottomLeft | Placement::BottomRight => mh - wh - TASKBAR_HEIGHT,
                Placement::Center => half(mh - wh),
                _ => 0,
            };
            &&& x == (if raw_x == mw { raw_x - ww } else { raw_x })
            &&& y == raw_y
        },
{
    let p = match parse_placement(position) {
        Some(p) => p,
        None => {
            return None;
        },
    };
    if !with_center && p == Placement::Center {
        return None;
    }
    let mw = mw as i64;
    let mh = mh as i64;
    let ww = ww as i64;
    let wh = wh as i64;
    let (x, y) = match p {
        Placement::TopLeft => (0, 0),
        Placement::TopRight => (mw, 0),
        Placement::BottomLeft => (0, mh - wh - TASKBAR_HEIGHT),
        Placement::BottomRight => (mw, mh - wh - TASKBAR_HEIGHT),
        Placement::Center => (half_exec(mw - ww), half_exec(mh - wh)),
    };
    let x = if x == mw {
        x - ww
    } else {
        x
    };
    Some((x, y))
}

} // verus!
