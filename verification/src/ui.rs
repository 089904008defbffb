//! Where the window sits and what its controls say.
//!
//! Lengths and coordinates are whole pixels.

use crate::metadata::ScreenLoc;
use vstd::prelude::*;

verus! {

/// Width of the widget's window.
pub const FULL_WIDTH: i32 = 460;

/// Height of the widget's window.
pub const FULL_HEIGHT: i32 = 160;

/// Width of the window while it is minimized.
pub const SMALL_WIDTH: i32 = 20;

/// Height of the window while it is minimized.
pub const SMALL_HEIGHT: i32 = 40;

/// The rectangle of the display: `x0`, `y0` is its top left corner and `x1`,
/// `y1` its bottom right one.
#[derive(Clone, Copy, Debug, PartialEq, Eq, Structural)]
pub struct DisplayRect {
    pub x0: i32,
    pub y0: i32,
    pub x1: i32,
    pub y1: i32,
}

/// Size and position of the window.
#[derive(Clone, Copy, Debug, PartialEq, Eq, Structural)]
pub struct WindowFrame {
    pub width: i32,
    pub height: i32,
    pub x: i64,
    pub y: i64,
}

/// Where the top left corner of a window of the given size goes: the offset
/// pushes it away from the two display edges that meet in its corner.
pub open spec fn placement(
    width: int,
    height: int,
    pos: ScreenLoc,
    offset: (int, int),
    rect: DisplayRect,
) -> (int, int) {
    match pos {
        ScreenLoc::TopRight => (rect.x1 - width - offset.0, rect.y0 + offset.1),
        ScreenLoc::TopLeft => (rect.x0 + offset.0, rect.y0 + offset.1),
        ScreenLoc::BottomLeft => (rect.x0 + offset.0, rect.y1 - height - offset.1),
        ScreenLoc::BottomRight => (rect.x1 - width - offset.0, rect.y1 - height - offset.1),
    }
}

/// A placed window keeps exactly the offset as its distance from each of the
/// two display edges that meet in its corner. Without offset it touches
/// both.
pub proof fn lemma_offset_is_the_gap(
    width: int,
    height: int,
    pos: ScreenLoc,
    offset: (int, int),
    rect: DisplayRect,
)
    ensures
        pos.on_left() ==> placement(width, height, pos, offset, rect).0 - rect.x0 == offset.0,
        !pos.on_left() ==> rect.x1 - (placement(width, height, pos, offset, rect).0 + width)
            == offset.0,
        pos.on_top() ==> placement(width, height, pos, offset, rect).1 - rect.y0 == offset.1,
        !pos.on_top() ==> rect.y1 - (placement(width, height, pos, offset, rect).1 + height)
            == offset.1,
{
}

/// The frame of a window of the given size placed in a corner. The position
/// of a window with 32-bit measures always fits its 64-bit fields.
pub open spec fn framed(
    width: i32,
    height: i32,
    pos: ScreenLoc,
    offset: (i32, i32),
    rect: DisplayRect,
) -> WindowFrame {
    let at = placement(width as int, height as int, pos, (offset.0 as int, offset.1 as int), rect);
    WindowFrame { width, height, x: at.0 as i64, y: at.1 as i64 }
}

/// The frame the window takes when the minimize control is clicked. A full
/// window shrinks and a minimized one grows back to the frame it had at
/// start-up; both sit in the configured corner at the configured offset.
pub open spec fn toggled_frame(
    minimized: bool,
    pos: ScreenLoc,
    offset: (i32, i32),
    rect: DisplayRect,
) -> WindowFrame {
    if minimized {
        framed(FULL_WIDTH, FULL_HEIGHT, pos, offset, rect)
    } else {
        framed(SMALL_WIDTH, SMALL_HEIGHT, pos, offset, rect)
    }
}

/// Minimizing and restoring changes the size of the window and nothing else
/// of its placement: every frame a click gives is placed by the one rule,
/// with the configured offset, and a restored window is back in its
/// start-up frame.
pub proof fn lemma_toggle_keeps_placement(
    minimized: bool,
    pos: ScreenLoc,
    offset: (i32, i32),
    rect: DisplayRect,
)
    ensures
        toggled_frame(true, pos, offset, rect) == framed(FULL_WIDTH, FULL_HEIGHT, pos, offset, rect),
        toggled_frame(false, pos, offset, rect) == framed(
            SMALL_WIDTH,
            SMALL_HEIGHT,
            pos,
            offset,
            rect,
        ),
        toggled_frame(minimized, pos, offset, rect) == framed(
            toggled_frame(minimized, pos, offset, rect).width,
            toggled_frame(minimized, pos, offset, rect).height,
            pos,
            offset,
            rect,
        ),
{
}

/// Computes where the top left corner of the window goes on the display.
/// The result is wide enough for every input, so nothing overflows.
pub fn place_widget(
    width: i32,
    height: i32,
    pos: &ScreenLoc,
    offset: (i32, i32),
    rect: &DisplayRect,
) -> (at: (i64, i64))
    ensures
        (at.0 as int, at.1 as int) == placement(
            width as int,
            height as int,
            *pos,
            (offset.0 as int, offset.1 as int),
            *rect,
        ),
{
    let w: i64 = width as i64;
    let h: i64 = height as i64;
    let dx: i64 = offset.0 as i64;
    let dy: i64 = offset.1 as i64;
    let x0: i64 = rect.x0 as i64;
    let y0: i64 = rect.y0 as i64;
    let x1: i64 = rect.x1 as i64;
    let y1: i64 = rect.y1 as i64;
    match pos {
        ScreenLoc::TopRight => (x1 - w - dx, y0 + dy),
        ScreenLoc::TopLeft => (x0 + dx, y0 + dy),
        ScreenLoc::BottomLeft => (x0 + dx, y1 - h - dy),
        ScreenLoc::BottomRight => (x1 - w - dx, y1 - h - dy),
    }
}

/// The frame of the window at start-up: full size, in the configured corner
/// at the configured offset.
pub fn initial_frame(pos: &ScreenLoc, offset: (i32, i32), rect: &DisplayRect) -> (frame:
    WindowFrame)
    ensures
        frame == framed(FULL_WIDTH, FULL_HEIGHT, *pos, offset, *rect),
{
    let at = place_widget(FULL_WIDTH, FULL_HEIGHT, pos, offset, rect);
    WindowFrame { width: FULL_WIDTH, height: FULL_HEIGHT, x: at.0, y: at.1 }
}

/// Handles a click on the minimize control: flips the flag and returns the
/// frame that the window takes.
pub fn toggle_minimize(
    minimize: &mut bool,
    pos: &ScreenLoc,
    offset: (i32, i32),
    rect: &DisplayRect,
) -> (frame: WindowFrame)
    ensures
        *final(minimize) == !*old(minimize),
        frame == toggled_frame(*old(minimize), *pos, offset, *rect),
{
    let frame = if *minimize {
        let at = place_widget(FULL_WIDTH, FULL_HEIGHT, pos, offset, rect);
        WindowFrame { width: FULL_WIDTH, height: FULL_HEIGHT, x: at.0, y: at.1 }
    } else {
        let at = place_widget(SMALL_WIDTH, SMALL_HEIGHT, pos, offset, rect);
        WindowFrame { width: SMALL_WIDTH, height: SMALL_HEIGHT, x: at.0, y: at.1 }
    };
    *minimize = !*minimize;
    frame
}

/// Whether the artwork part of the window has to be rebuilt when a snapshot
/// replaces another: exactly when the artwork address differs.
pub fn art_changed(old_url: &String, url: &String) -> (changed: bool)
    ensures
        changed == (old_url@ != url@),
{
    !(*old_url == *url)
}

/// The text on the play/pause button: it names what a click will do.
pub open spec fn label_text(paused: bool) -> Seq<char> {
    if paused {
        "Play"@
    } else {
        "Pause"@
    }
}

/// The label of the play/pause button.
pub fn pause_label(is_paused: bool) -> (label: String)
    ensures
        label@ == label_text(is_paused),
{
    if is_paused {
        "Play".to_owned()
    } else {
        "Pause".to_owned()
    }
}

} // verus!
