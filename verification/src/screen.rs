//! Plain data carried between the component and its host: the rectangular
//! region the host assigns, the theme style it supplies, and the caret
//! report the component hands back.

use vstd::prelude::*;

verus! {

/// A rectangular region of the terminal screen, in cells: `x`/`y` is the
/// top-left corner, `width`/`height` the extent.
#[derive(Clone, Copy, Debug)]
pub struct ScreenArea {
    pub x: u16,
    pub y: u16,
    pub width: u16,
    pub height: u16,
}

/// A region fits the screen's coordinate space when neither edge coordinate
/// overflows a 16-bit cell index and the region holds at most `u16::MAX`
/// cells — the bound a buffer's own rectangle obeys, and that the widget
/// code multiplies within.
pub open spec fn area_fits(a: ScreenArea) -> bool {
    &&& a.x + a.width <= u16::MAX
    &&& a.y + a.height <= u16::MAX
    &&& a.width * a.height <= u16::MAX
}

/// A visual style supplied by the host's theme: an optional foreground and
/// an optional background colour, each an index into the terminal's 256-slot
/// palette. An absent colour leaves the terminal's default in place.
#[derive(Clone, Copy, Debug)]
pub struct ThemeStyle {
    pub fg: Option<u8>,
    pub bg: Option<u8>,
}

/// A caret position in the component's local coordinate space.
#[derive(Clone, Copy, Debug, PartialEq, Eq, Structural)]
pub struct CaretPosition {
    pub row: usize,
    pub col: usize,
}

/// The shape of the caret the host should draw.
#[derive(Clone, Copy, Debug, PartialEq, Eq, Structural)]
pub enum CaretKind {
    Block,
    Bar,
    Underline,
    Hidden,
}

} // verus!
