//! The macOS backend.
//!
//! It holds the place of the Core Graphics implementation: until that exists,
//! every operation is declined as unsupported and no feature is offered.

use vstd::prelude::*;

use crate::error::{outcome, MoverResult};
use crate::platform::{
    decline, not_implemented, KeyboardPlatform, MousePlatform, Platform, ScreenPlatform,
};
use crate::types::{MouseButton, Point, Size};

verus! {

/// The macOS backend.
#[derive(Debug, Clone, Copy, PartialEq, Eq, Structural)]
pub struct MacOSPlatform;

impl MacOSPlatform {
    /// Creates the macOS backend; this cannot fail.
    pub fn new() -> (r: MoverResult<MacOSPlatform>)
        ensures
            r is Ok,
            r->Ok_0 == MacOSPlatform,
    {
        Ok(MacOSPlatform)
    }
}

impl MousePlatform for MacOSPlatform {
    fn get_position(&self) -> (r: MoverResult<Point>)
        ensures
            outcome(r) == not_implemented::<Point>("macOS"@, "mouse position"@),
    {
        decline("macOS", "mouse position")
    }

    fn move_to(&self, _x: i32, _y: i32) -> (r: MoverResult<()>)
        ensures
            outcome(r) == not_implemented::<()>("macOS"@, "mouse move"@),
    {
        decline("macOS", "mouse move")
    }

    fn move_by(&self, _dx: i32, _dy: i32) -> (r: MoverResult<()>)
        ensures
            outcome(r) == not_implemented::<()>("macOS"@, "mouse move by"@),
    {
        decline("macOS", "mouse move by")
    }

    fn move_to_with_tween<F: Fn(u32) -> i64>(
        &self,
        _x: i32,
        _y: i32,
        _duration: i64,
        _tween: F,
    ) -> (r: MoverResult<()>)
        ensures
            outcome(r) == not_implemented::<()>("macOS"@, "mouse move with tween"@),
    {
        decline("macOS", "mouse move with tween")
    }

    fn click(&self, _button: MouseButton) -> (r: MoverResult<()>)
        ensures
            outcome(r) == not_implemented::<()>("macOS"@, "mouse click"@),
    {
        decline("macOS", "mouse click")
    }

    fn click_at(&self, _x: i32, _y: i32, _button: MouseButton) -> (r: MoverResult<()>)
        ensures
            outcome(r) == not_implemented::<()>("macOS"@, "mouse click at"@),
    {
        decline("macOS", "mouse click at")
    }

    fn double_click(&self, _button: MouseButton) -> (r: MoverResult<()>)
        ensures
            outcome(r) == not_implemented::<()>("macOS"@, "double click"@),
    {
        decline("macOS", "double click")
    }

    fn triple_click(&self, _button: MouseButton) -> (r: MoverResult<()>)
        ensures
            outcome(r) == not_implemented::<()>("macOS"@, "triple click"@),
    {
        decline("macOS", "triple click")
    }

    fn press_button(&self, _button: MouseButton) -> (r: MoverResult<()>)
        ensures
            outcome(r) == not_implemented::<()>("macOS"@, "mouse button press"@),
    {
        decline("macOS", "mouse button press")
    }

    fn release_button(&self, _button: MouseButton) -> (r: MoverResult<()>)
        ensures
            outcome(r) == not_implemented::<()>("macOS"@, "mouse button release"@),
    {
        decline("macOS", "mouse button release")
    }

    fn drag_to(&self, _x: i32, _y: i32, _button: MouseButton) -> (r: MoverResult<()>)
        ensures
            outcome(r) == not_implemented::<()>("macOS"@, "mouse drag to"@),
    {
        decline("macOS", "mouse drag to")
    }

    fn drag_by(&self, _dx: i32, _dy: i32, _button: MouseButton) -> (r: MoverResult<()>)
        ensures
            outcome(r) == not_implemented::<()>("macOS"@, "mouse drag by"@),
    {
        decline("macOS", "mouse drag by")
    }

    fn scroll_vertical(&self, _clicks: i32) -> (r: MoverResult<()>)
        ensures
            outcome(r) == not_implemented::<()>("macOS"@, "vertical scroll"@),
    {
        decline("macOS", "vertical scroll")
    }

    fn scroll_horizontal(&self, _clicks: i32) -> (r: MoverResult<()>)
        ensures
            outcome(r) == not_implemented::<()>("macOS"@, "horizontal scroll"@),
    {
        decline("macOS", "horizontal scroll")
    }
}

impl ScreenPlatform for MacOSPlatform {
    fn get_size(&self) -> (r: MoverResult<Size>)
        ensures
            outcome(r) == not_implemented::<Size>("macOS"@, "screen size"@),
    {
        decline("macOS", "screen size")
    }

    fn is_on_screen(&self, _x: i32, _y: i32) -> (r: MoverResult<bool>)
        ensures
            outcome(r) == not_implemented::<bool>("macOS"@, "on screen check"@),
    {
        decline("macOS", "on screen check")
    }

    fn capture_screen(&self) -> (r: MoverResult<Vec<u8>>)
        ensures
            outcome(r) == not_implemented::<Vec<u8>>("macOS"@, "screen capture"@),
    {
        decline("macOS", "screen capture")
    }

    fn capture_region(&self, _x: i32, _y: i32, _width: u32, _height: u32) -> (r: MoverResult<
        Vec<u8>,
    >)
        ensures
            outcome(r) == not_implemented::<Vec<u8>>("macOS"@, "region capture"@),
    {
        decline("macOS", "region capture")
    }

    fn get_pixel_color(&self, _x: i32, _y: i32) -> (r: MoverResult<(u8, u8, u8)>)
        ensures
            outcome(r) == not_implemented::<(u8, u8, u8)>("macOS"@, "pixel color"@),
    {
        decline("macOS", "pixel color")
    }
}

impl KeyboardPlatform for MacOSPlatform {
    fn type_string(&self, _text: &str) -> (r: MoverResult<()>)
        ensures
            outcome(r) == not_implemented::<()>("macOS"@, "keyboard type string"@),
    {
        decline("macOS", "keyboard type string")
    }

    fn press_key(&self, _key: &str) -> (r: MoverResult<()>)
        ensures
            outcome(r) == not_implemented::<()>("macOS"@, "keyboard press key"@),
    {
        decline("macOS", "keyboard press key")
    }

    fn release_key(&self, _key: &str) -> (r: MoverResult<()>)
        ensures
            outcome(r) == not_implemented::<()>("macOS"@, "keyboard release key"@),
    {
        decline("macOS", "keyboard release key")
    }

    fn hold_key(&self, _key: &str) -> (r: MoverResult<()>)
        ensures
            outcome(r) == not_implemented::<()>("macOS"@, "keyboard hold key"@),
    {
        decline("macOS", "keyboard hold key")
    }

    fn press_keys(&self, _keys: &[&str]) -> (r: MoverResult<()>)
        ensures
            outcome(r) == not_implemented::<()>("macOS"@, "keyboard press keys"@),
    {
        decline("macOS", "keyboard press keys")
    }

    fn press_hotkey(&self, _keys: &[&str]) -> (r: MoverResult<()>)
        ensures
            outcome(r) == not_implemented::<()>("macOS"@, "keyboard hotkey"@),
    {
        decline("macOS", "keyboard hotkey")
    }
}

impl Platform for MacOSPlatform {
    fn name(&self) -> (n: &'static str)
        ensures
            n@ == "macOS"@,
    {
        "macOS"
    }

    fn supports_feature(&self, _feature: &str) -> (b: bool)
        ensures
            !b,
    {
        false
    }
}

} // verus!
