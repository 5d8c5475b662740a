//! The Linux backend.
//!
//! It holds the place of the X11 and Wayland implementation: until that exists,
//! every operation is declined as unsupported and no feature is offered.

use vstd::prelude::*;

use crate::error::{outcome, MoverResult};
use crate::platform::{
    decline, not_implemented, KeyboardPlatform, MousePlatform, Platform, ScreenPlatform,
};
use crate::types::{MouseButton, Point, Size};

verus! {

/// The Linux backend.
#[derive(Debug, Clone, Copy, PartialEq, Eq, Structural)]
pub struct LinuxPlatform;

impl LinuxPlatform {
    /// Creates the Linux backend; this cannot fail.
    pub fn new() -> (r: MoverResult<LinuxPlatform>)
        ensures
            r is Ok,
            r->Ok_0 == LinuxPlatform,
    {
        Ok(LinuxPlatform)
    }
}

impl MousePlatform for LinuxPlatform {
    fn get_position(&self) -> (r: MoverResult<Point>)
        ensures
            outcome(r) == not_implemented::<Point>("Linux"@, "mouse position"@),
    {
        decline("Linux", "mouse position")
    }

    fn move_to(&self, _x: i32, _y: i32) -> (r: MoverResult<()>)
        ensures
            outcome(r) == not_implemented::<()>("Linux"@, "mouse move"@),
    {
        decline("Linux", "mouse move")
    }

    fn move_by(&self, _dx: i32, _dy: i32) -> (r: MoverResult<()>)
        ensures
            outcome(r) == not_implemented::<()>("Linux"@, "mouse move by"@),
    {
        decline("Linux", "mouse move by")
    }

    fn move_to_with_tween<F: Fn(u32) -> i64>(
        &self,
        _x: i32,
        _y: i32,
        _duration: i64,
        _tween: F,
    ) -> (r: MoverResult<()>)
        ensures
            outcome(r) == not_implemented::<()>("Linux"@, "mouse move with tween"@),
    {
        decline("Linux", "mouse move with tween")
    }

    fn click(&self, _button: MouseButton) -> (r: MoverResult<()>)
        ensures
            outcome(r) == not_implemented::<()>("Linux"@, "mouse click"@),
    {
        decline("Linux", "mouse click")
    }

    fn click_at(&self, _x: i32, _y: i32, _button: MouseButton) -> (r: MoverResult<()>)
        ensures
            outcome(r) == not_implemented::<()>("Linux"@, "mouse click at"@),
    {
        decline("Linux", "mouse click at")
    }

    fn double_click(&self, _button: MouseButton) -> (r: MoverResult<()>)
        ensures
            outcome(r) == not_implemented::<()>("Linux"@, "double click"@),
    {
        decline("Linux", "double click")
    }

    fn triple_click(&self, _button: MouseButton) -> (r: MoverResult<()>)
        ensures
            outcome(r) == not_implemented::<()>("Linux"@, "triple click"@),
    {
        decline("Linux", "triple click")
    }

    fn press_button(&self, _button: MouseButton) -> (r: MoverResult<()>)
        ensures
            outcome(r) == not_implemented::<()>("Linux"@, "mouse button press"@),
    {
        decline("Linux", "mouse button press")
    }

    fn release_button(&self, _button: MouseButton) -> (r: MoverResult<()>)
        ensures
            outcome(r) == not_implemented::<()>("Linux"@, "mouse button release"@),
    {
        decline("Linux", "mouse button release")
    }

    fn drag_to(&self, _x: i32, _y: i32, _button: MouseButton) -> (r: MoverResult<()>)
        ensures
            outcome(r) == not_implemented::<()>("Linux"@, "mouse drag to"@),
    {
        decline("Linux", "mouse drag to")
    }

    fn drag_by(&self, _dx: i32, _dy: i32, _button: MouseButton) -> (r: MoverResult<()>)
        ensures
            outcome(r) == not_implemented::<()>("Linux"@, "mouse drag by"@),
    {
        decline("Linux", "mouse drag by")
    }

    fn scroll_vertical(&self, _clicks: i32) -> (r: MoverResult<()>)
        ensures
            outcome(r) == not_implemented::<()>("Linux"@, "vertical scroll"@),
    {
        decline("Linux", "vertical scroll")
    }

    fn scroll_horizontal(&self, _clicks: i32) -> (r: MoverResult<()>)
        ensures
            outcome(r) == not_implemented::<()>("Linux"@, "horizontal scroll"@),
    {
        decline("Linux", "horizontal scroll")
    }
}

impl ScreenPlatform for LinuxPlatform {
    fn get_size(&self) -> (r: MoverResult<Size>)
        ensures
            outcome(r) == not_implemented::<Size>("Linux"@, "screen size"@),
    {
        decline("Linux", "screen size")
    }

    fn is_on_screen(&self, _x: i32, _y: i32) -> (r: MoverResult<bool>)
        ensures
            outcome(r) == not_implemented::<bool>("Linux"@, "on screen check"@),
    {
        decline("Linux", "on screen check")
    }

    fn capture_screen(&self) -> (r: MoverResult<Vec<u8>>)
        ensures
            outcome(r) == not_implemented::<Vec<u8>>("Linux"@, "screen capture"@),
    {
        decline("Linux", "screen capture")
    }

    fn capture_region(&self, _x: i32, _y: i32, _width: u32, _height: u32) -> (r: MoverResult<
        Vec<u8>,
    >)
        ensures
            outcome(r) == not_implemented::<Vec<u8>>("Linux"@, "region capture"@),
    {
        decline("Linux", "region capture")
    }

    fn get_pixel_color(&self, _x: i32, _y: i32) -> (r: MoverResult<(u8, u8, u8)>)
        ensures
            outcome(r) == not_implemented::<(u8, u8, u8)>("Linux"@, "pixel color"@),
    {
        decline("Linux", "pixel color")
    }
}

impl KeyboardPlatform for LinuxPlatform {
    fn type_string(&self, _text: &str) -> (r: MoverResult<()>)
        ensures
            outcome(r) == not_implemented::<()>("Linux"@, "keyboard type string"@),
    {
        decline("Linux", "keyboard type string")
    }

    fn press_key(&self, _key: &str) -> (r: MoverResult<()>)
        ensures
            outcome(r) == not_implemented::<()>("Linux"@, "keyboard press key"@),
    {
        decline("Linux", "keyboard press key")
    }

    fn release_key(&self, _key: &str) -> (r: MoverResult<()>)
        ensures
            outcome(r) == not_implemented::<()>("Linux"@, "keyboard release key"@),
    {
        decline("Linux", "keyboard release key")
    }

    fn hold_key(&self, _key: &str) -> (r: MoverResult<()>)
        ensures
            outcome(r) == not_implemented::<()>("Linux"@, "keyboard hold key"@),
    {
        decline("Linux", "keyboard hold key")
    }

    fn press_keys(&self, _keys: &[&str]) -> (r: MoverResult<()>)
        ensures
            outcome(r) == not_implemented::<()>("Linux"@, "keyboard press keys"@),
    {
        decline("Linux", "keyboard press keys")
    }

    fn press_hotkey(&self, _keys: &[&str]) -> (r: MoverResult<()>)
        ensures
            outcome(r) == not_implemented::<()>("Linux"@, "keyboard hotkey"@),
    {
        decline("Linux", "keyboard hotkey")
    }
}

impl Platform for LinuxPlatform {
    fn name(&self) -> (n: &'static str)
        ensures
            n@ == "Linux"@,
    {
        "Linux"
    }

    fn supports_feature(&self, _feature: &str) -> (b: bool)
        ensures
            !b,
    {
        false
    }
}

} // verus!
