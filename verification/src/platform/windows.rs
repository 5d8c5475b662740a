//! The Windows backend.
//!
//! It holds the place of the Windows API implementation: until that exists,
//! every operation is declined as unsupported and no feature is offered.

use vstd::prelude::*;

use crate::error::{outcome, MoverResult};
use crate::platform::{
    decline, not_implemented, KeyboardPlatform, MousePlatform, Platform, ScreenPlatform,
};
use crate::types::{MouseButton, Point, Size};

verus! {

/// The Windows backend.
#[derive(Debug, Clone, Copy, PartialEq, Eq, Structural)]
pub struct WindowsPlatform;

impl WindowsPlatform {
    /// Creates the Windows backend; this cannot fail.
    pub fn new() -> (r: MoverResult<WindowsPlatform>)
        ensures
            r is Ok,
            r->Ok_0 == WindowsPlatform,
    {
        Ok(WindowsPlatform)
    }
}

impl MousePlatform for WindowsPlatform {
    fn get_position(&self) -> (r: MoverResult<Point>)
        ensures
            outcome(r) == not_implemented::<Point>("Windows"@, "mouse position"@),
    {
        decline("Windows", "mouse position")
    }

    fn move_to(&self, _x: i32, _y: i32) -> (r: MoverResult<()>)
        ensures
            outcome(r) == not_implemented::<()>("Windows"@, "mouse move"@),
    {
        decline("Windows", "mouse move")
    }

    fn move_by(&self, _dx: i32, _dy: i32) -> (r: MoverResult<()>)
        ensures
            outcome(r) == not_implemented::<()>("Windows"@, "mouse move by"@),
    {
        decline("Windows", "mouse move by")
    }

    fn move_to_with_tween<F: Fn(u32) -> i64>(
        &self,
        _x: i32,
        _y: i32,
        _duration: i64,
        _tween: F,
    ) -> (r: MoverResult<()>)
        ensures
            outcome(r) == not_implemented::<()>("Windows"@, "mouse move with tween"@),
    {
        decline("Windows", "mouse move with tween")
    }

    fn click(&self, _button: MouseButton) -> (r: MoverResult<()>)
        ensures
            outcome(r) == not_implemented::<()>("Windows"@, "mouse click"@),
    {
        decline("Windows", "mouse click")
    }

    fn click_at(&self, _x: i32, _y: i32, _button: MouseButton) -> (r: MoverResult<()>)
        ensures
            outcome(r) == not_implemented::<()>("Windows"@, "mouse click at"@),
    {
        decline("Windows", "mouse click at")
    }

    fn double_click(&self, _button: MouseButton) -> (r: MoverResult<()>)
        ensures
            outcome(r) == not_implemented::<()>("Windows"@, "double click"@),
    {
        decline("Windows", "double click")
    }

    fn triple_click(&self, _button: MouseButton) -> (r: MoverResult<()>)
        ensures
            outcome(r) == not_implemented::<()>("Windows"@, "triple click"@),
    {
        decline("Windows", "triple click")
    }

    fn press_button(&self, _button: MouseButton) -> (r: MoverResult<()>)
        ensures
            outcome(r) == not_implemented::<()>("Windows"@, "mouse button press"@),
    {
        decline("Windows", "mouse button press")
    }

    fn release_button(&self, _button: MouseButton) -> (r: MoverResult<()>)
        ensures
            outcome(r) == not_implemented::<()>("Windows"@, "mouse button release"@),
    {
        decline("Windows", "mouse button release")
    }

    fn drag_to(&self, _x: i32, _y: i32, _button: MouseButton) -> (r: MoverResult<()>)
        ensures
            outcome(r) == not_implemented::<()>("Windows"@, "mouse drag to"@),
    {
        decline("Windows", "mouse drag to")
    }

    fn drag_by(&self, _dx: i32, _dy: i32, _button: MouseButton) -> (r: MoverResult<()>)
        ensures
            outcome(r) == not_implemented::<()>("Windows"@, "mouse drag by"@),
    {
        decline("Windows", "mouse drag by")
    }

    fn scroll_vertical(&self, _clicks: i32) -> (r: MoverResult<()>)
        ensures
            outcome(r) == not_implemented::<()>("Windows"@, "vertical scroll"@),
    {
        decline("Windows", "vertical scroll")
    }

    fn scroll_horizontal(&self, _clicks: i32) -> (r: MoverResult<()>)
        ensures
            outcome(r) == not_implemented::<()>("Windows"@, "horizontal scroll"@),
    {
        decline("Windows", "horizontal scroll")
    }
}

impl ScreenPlatform for WindowsPlatform {
    fn get_size(&self) -> (r: MoverResult<Size>)
        ensures
            outcome(r) == not_implemented::<Size>("Windows"@, "screen size"@),
    {
        decline("Windows", "screen size")
    }

    fn is_on_screen(&self, _x: i32, _y: i32) -> (r: MoverResult<bool>)
        ensures
            outcome(r) == not_implemented::<bool>("Windows"@, "on screen check"@),
    {
        decline("Windows", "on screen check")
    }

    fn capture_screen(&self) -> (r: MoverResult<Vec<u8>>)
        ensures
            outcome(r) == not_implemented::<Vec<u8>>("Windows"@, "screen capture"@),
    {
        decline("Windows", "screen capture")
    }

    fn capture_region(&self, _x: i32, _y: i32, _width: u32, _height: u32) -> (r: MoverResult<
        Vec<u8>,
    >)
        ensures
            outcome(r) == not_implemented::<Vec<u8>>("Windows"@, "region capture"@),
    {
        decline("Windows", "region capture")
    }

    fn get_pixel_color(&self, _x: i32, _y: i32) -> (r: MoverResult<(u8, u8, u8)>)
        ensures
            outcome(r) == not_implemented::<(u8, u8, u8)>("Windows"@, "pixel color"@),
    {
        decline("Windows", "pixel color")
    }
}

impl KeyboardPlatform for WindowsPlatform {
    fn type_string(&self, _text: &str) -> (r: MoverResult<()>)
        ensures
            outcome(r) == not_implemented::<()>("Windows"@, "keyboard type string"@),
    {
        decline("Windows", "keyboard type string")
    }

    fn press_key(&self, _key: &str) -> (r: MoverResult<()>)
        ensures
            outcome(r) == not_implemented::<()>("Windows"@, "keyboard press key"@),
    {
        decline("Windows", "keyboard press key")
    }

    fn release_key(&self, _key: &str) -> (r: MoverResult<()>)
        ensures
            outcome(r) == not_implemented::<()>("Windows"@, "keyboard release key"@),
    {
        decline("Windows", "keyboard release key")
    }

    fn hold_key(&self, _key: &str) -> (r: MoverResult<()>)
        ensures
            outcome(r) == not_implemented::<()>("Windows"@, "keyboard hold key"@),
    {
        decline("Windows", "keyboard hold key")
    }

    fn press_keys(&self, _keys: &[&str]) -> (r: MoverResult<()>)
        ensures
            outcome(r) == not_implemented::<()>("Windows"@, "keyboard press keys"@),
    {
        decline("Windows", "keyboard press keys")
    }

    fn press_hotkey(&self, _keys: &[&str]) -> (r: MoverResult<()>)
        ensures
            outcome(r) == not_implemented::<()>("Windows"@, "keyboard hotkey"@),
    {
        decline("Windows", "keyboard hotkey")
    }
}

impl Platform for WindowsPlatform {
    fn name(&self) -> (n: &'static str)
        ensures
            n@ == "Windows"@,
    {
        "Windows"
    }

    fn supports_feature(&self, _feature: &str) -> (b: bool)
        ensures
            !b,
    {
        false
    }
}

} // verus!
