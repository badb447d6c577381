use vstd::prelude::*;

verus! {

/// Configuration of an application, given once at construction.
pub struct AppOptions {
    /// Console width, in cells.
    pub console_width: u32,
    /// Console height, in cells.
    pub console_height: u32,
    pub window_title: String,
    /// Path of the font image (a 16x16 glyph sheet).
    pub font_path: String,
    pub vsync: bool,
    pub fullscreen: bool,
    pub show_cursor: bool,
}

} // verus!
