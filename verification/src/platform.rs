//! The capability interface that every input backend offers, and the
//! registry that picks the backend for a host.
//!
//! Calling code depends on the three capability traits only, never on a
//! concrete backend, so a test double can stand in for a real backend.

use vstd::prelude::*;
use vstd::string::*;

use crate::error::{outcome, unsupported, MoverError, MoverErrorView, MoverResult, Outcome};
use crate::platform::linux::LinuxPlatform;
use crate::platform::macos::MacOSPlatform;
use crate::platform::windows::WindowsPlatform;
use crate::text::text_eq;
use crate::types::{MouseButton, Point, Size};

pub mod linux;
pub mod macos;
pub mod windows;

verus! {

/// Pointer operations of a backend.
pub trait MousePlatform {
    /// Reads the pointer's position.
    fn get_position(&self) -> MoverResult<Point>;

    /// Moves the pointer to absolute coordinates.
    fn move_to(&self, x: i32, y: i32) -> MoverResult<()>;

    /// Moves the pointer relative to where it is.
    fn move_by(&self, dx: i32, dy: i32) -> MoverResult<()>;

    /// Moves the pointer to absolute coordinates over `duration`
    /// microseconds, easing its progress with `tween`.
    fn move_to_with_tween<F: Fn(u32) -> i64>(
        &self,
        x: i32,
        y: i32,
        duration: i64,
        tween: F,
    ) -> MoverResult<()>;

    /// Clicks where the pointer is.
    fn click(&self, button: MouseButton) -> MoverResult<()>;

    /// Clicks at absolute coordinates.
    fn click_at(&self, x: i32, y: i32, button: MouseButton) -> MoverResult<()>;

    /// Clicks twice where the pointer is.
    fn double_click(&self, button: MouseButton) -> MoverResult<()>;

    /// Clicks three times where the pointer is.
    fn triple_click(&self, button: MouseButton) -> MoverResult<()>;

    /// Presses a button and holds it.
    fn press_button(&self, button: MouseButton) -> MoverResult<()>;

    /// Releases a button.
    fn release_button(&self, button: MouseButton) -> MoverResult<()>;

    /// Drags to absolute coordinates with a button held.
    fn drag_to(&self, x: i32, y: i32, button: MouseButton) -> MoverResult<()>;

    /// Drags relative to where the pointer is with a button held.
    fn drag_by(&self, dx: i32, dy: i32, button: MouseButton) -> MoverResult<()>;

    /// Scrolls vertically; a positive count scrolls up.
    fn scroll_vertical(&self, clicks: i32) -> MoverResult<()>;

    /// Scrolls horizontally; a positive count scrolls right.
    fn scroll_horizontal(&self, clicks: i32) -> MoverResult<()>;
}

/// Screen operations of a backend.
pub trait ScreenPlatform {
    /// Reads the size of the screen.
    fn get_size(&self) -> MoverResult<Size>;

    /// Whether the coordinates are on the screen.
    fn is_on_screen(&self, x: i32, y: i32) -> MoverResult<bool>;

    /// Captures the whole screen as raw bytes.
    fn capture_screen(&self) -> MoverResult<Vec<u8>>;

    /// Captures a region of the screen as raw bytes.
    fn capture_region(&self, x: i32, y: i32, width: u32, height: u32) -> MoverResult<Vec<u8>>;

    /// Reads the colour of one pixel as red, green and blue.
    fn get_pixel_color(&self, x: i32, y: i32) -> MoverResult<(u8, u8, u8)>;
}

/// Keyboard operations of a backend.
pub trait KeyboardPlatform {
    /// Types a text.
    fn type_string(&self, text: &str) -> MoverResult<()>;

    /// Presses a key.
    fn press_key(&self, key: &str) -> MoverResult<()>;

    /// Releases a key.
    fn release_key(&self, key: &str) -> MoverResult<()>;

    /// Presses a key and holds it.
    fn hold_key(&self, key: &str) -> MoverResult<()>;

    /// Presses and releases several keys, one after the other.
    fn press_keys(&self, keys: &[&str]) -> MoverResult<()>;

    /// Presses several keys together, then releases them.
    fn press_hotkey(&self, keys: &[&str]) -> MoverResult<()>;
}

/// Everything a backend offers: pointer, screen and keyboard operations, its
/// name, and which optional features it has.
pub trait Platform: MousePlatform + ScreenPlatform + KeyboardPlatform {
    /// The backend's name.
    fn name(&self) -> &'static str;

    /// Whether the backend has the named feature.
    fn supports_feature(&self, feature: &str) -> bool;
}

/// The text with which a backend declines an operation that it does not
/// implement yet.
pub open spec fn not_implemented_text(platform: Seq<char>, operation: Seq<char>) -> Seq<char> {
    platform + " "@ + operation + " not yet implemented"@
}

/// The outcome of an operation that a backend of the given name does not
/// implement yet.
pub open spec fn not_implemented<T>(platform: Seq<char>, operation: Seq<char>) -> Outcome<T> {
    Err(unsupported(not_implemented_text(platform, operation)))
}

/// Declines an operation that the backend of the given name does not
/// implement yet.
pub fn decline<T>(platform: &str, operation: &str) -> (r: MoverResult<T>)
    ensures
        outcome(r) == not_implemented::<T>(platform@, operation@),
{
    let mut message = String::from_str(platform);
    message.append(" ");
    message.append(operation);
    message.append(" not yet implemented");
    Err(MoverError::unsupported_operation(message))
}

/// The kinds of host for which a backend exists.
#[derive(Debug, Clone, Copy, PartialEq, Eq, Hash, Structural)]
pub enum HostOs {
    Windows,
    MacOS,
    Linux,
}

impl HostOs {
    /// The host kind that an operating-system identifier names, if a backend
    /// exists for it.
    pub open spec fn spec_detect(os: Seq<char>) -> Option<HostOs> {
        if os == "windows"@ {
            Some(HostOs::Windows)
        } else if os == "macos"@ {
            Some(HostOs::MacOS)
        } else if os == "linux"@ {
            Some(HostOs::Linux)
        } else {
            None
        }
    }

    /// Recognizes the operating-system identifier of a host: `windows`,
    /// `macos` or `linux`. Any other identifier names a host without a
    /// backend.
    pub fn detect(os: &str) -> (host: Option<HostOs>)
        ensures
            host == HostOs::spec_detect(os@),
    {
        if text_eq(os, "windows") {
            Some(HostOs::Windows)
        } else if text_eq(os, "macos") {
            Some(HostOs::MacOS)
        } else if text_eq(os, "linux") {
            Some(HostOs::Linux)
        } else {
            None
        }
    }
}

/// The backend of a session: one adapter for each kind of host.
#[derive(Debug, Clone, Copy, PartialEq, Eq, Structural)]
pub enum Backend {
    Windows(WindowsPlatform),
    MacOS(MacOSPlatform),
    Linux(LinuxPlatform),
}

impl Backend {
    /// The backend that serves a host of the given kind.
    pub open spec fn spec_for_host(host: HostOs) -> Backend {
        match host {
            HostOs::Windows => Backend::Windows(WindowsPlatform),
            HostOs::MacOS => Backend::MacOS(MacOSPlatform),
            HostOs::Linux => Backend::Linux(LinuxPlatform),
        }
    }

    /// The kind of host that the backend serves.
    pub open spec fn spec_host(self) -> HostOs {
        match self {
            Backend::Windows(_) => HostOs::Windows,
            Backend::MacOS(_) => HostOs::MacOS,
            Backend::Linux(_) => HostOs::Linux,
        }
    }

    /// The backend's name.
    pub open spec fn spec_name(self) -> Seq<char> {
        match self {
            Backend::Windows(_) => "Windows"@,
            Backend::MacOS(_) => "macOS"@,
            Backend::Linux(_) => "Linux"@,
        }
    }

    /// The kind of host that the backend serves.
    pub fn host(&self) -> (host: HostOs)
        ensures
            host == self.spec_host(),
    {
        match self {
            Backend::Windows(_) => HostOs::Windows,
            Backend::MacOS(_) => HostOs::MacOS,
            Backend::Linux(_) => HostOs::Linux,
        }
    }
}

/// Selects the backend for the host with the given operating-system
/// identifier.
///
/// A recognized host gets its own backend. Any other identifier is refused
/// with `PlatformNotSupported`, which carries the identifier as it was given.
pub fn get_platform(os: &str) -> (r: MoverResult<Backend>)
    ensures
        match HostOs::spec_detect(os@) {
            Some(host) => r == Ok::<Backend, MoverError>(Backend::spec_for_host(host)),
            None => outcome(r) == Err::<Backend, MoverErrorView>(
                MoverErrorView::PlatformNotSupported(os@),
            ),
        },
{
    match HostOs::detect(os) {
        Some(HostOs::Windows) => match WindowsPlatform::new() {
            Ok(p) => Ok(Backend::Windows(p)),
            Err(e) => Err(e),
        },
        Some(HostOs::MacOS) => match MacOSPlatform::new() {
            Ok(p) => Ok(Backend::MacOS(p)),
            Err(e) => Err(e),
        },
        Some(HostOs::Linux) => match LinuxPlatform::new() {
            Ok(p) => Ok(Backend::Linux(p)),
            Err(e) => Err(e),
        },
        None => Err(MoverError::PlatformNotSupported(String::from_str(os))),
    }
}

impl MousePlatform for Backend {
    fn get_position(&self) -> (r: MoverResult<Point>)
        ensures
            outcome(r) == not_implemented::<Point>(self.spec_name(), "mouse position"@),
    {
        match self {
            Backend::Windows(p) => p.get_position(),
            Backend::MacOS(p) => p.get_position(),
            Backend::Linux(p) => p.get_position(),
        }
    }

    fn move_to(&self, x: i32, y: i32) -> (r: MoverResult<()>)
        ensures
            outcome(r) == not_implemented::<()>(self.spec_name(), "mouse move"@),
    {
        match self {
            Backend::Windows(p) => p.move_to(x, y),
            Backend::MacOS(p) => p.move_to(x, y),
            Backend::Linux(p) => p.move_to(x, y),
        }
    }

    fn move_by(&self, dx: i32, dy: i32) -> (r: MoverResult<()>)
        ensures
            outcome(r) == not_implemented::<()>(self.spec_name(), "mouse move by"@),
    {
        match self {
            Backend::Windows(p) => p.move_by(dx, dy),
            Backend::MacOS(p) => p.move_by(dx, dy),
            Backend::Linux(p) => p.move_by(dx, dy),
        }
    }

    fn move_to_with_tween<F: Fn(u32) -> i64>(
        &self,
        x: i32,
        y: i32,
        duration: i64,
        tween: F,
    ) -> (r: MoverResult<()>)
        ensures
            outcome(r) == not_implemented::<()>(self.spec_name(), "mouse move with tween"@),
    {
        match self {
            Backend::Windows(p) => p.move_to_with_tween(x, y, duration, tween),
            Backend::MacOS(p) => p.move_to_with_tween(x, y, duration, tween),
            Backend::Linux(p) => p.move_to_with_tween(x, y, duration, tween),
        }
    }

    fn click(&self, button: MouseButton) -> (r: MoverResult<()>)
        ensures
            outcome(r) == not_implemented::<()>(self.spec_name(), "mouse click"@),
    {
        match self {
            Backend::Windows(p) => p.click(button),
            Backend::MacOS(p) => p.click(button),
            Backend::Linux(p) => p.click(button),
        }
    }

    fn click_at(&self, x: i32, y: i32, button: MouseButton) -> (r: MoverResult<()>)
        ensures
            outcome(r) == not_implemented::<()>(self.spec_name(), "mouse click at"@),
    {
        match self {
            Backend::Windows(p) => p.click_at(x, y, button),
            Backend::MacOS(p) => p.click_at(x, y, button),
            Backend::Linux(p) => p.click_at(x, y, button),
        }
    }

    fn double_click(&self, button: MouseButton) -> (r: MoverResult<()>)
        ensures
            outcome(r) == not_implemented::<()>(self.spec_name(), "double click"@),
    {
        match self {
            Backend::Windows(p) => p.double_click(button),
            Backend::MacOS(p) => p.double_click(button),
            Backend::Linux(p) => p.double_click(button),
        }
    }

    fn triple_click(&self, button: MouseButton) -> (r: MoverResult<()>)
        ensures
            outcome(r) == not_implemented::<()>(self.spec_name(), "triple click"@),
    {
        match self {
            Backend::Windows(p) => p.triple_click(button),
            Backend::MacOS(p) => p.triple_click(button),
            Backend::Linux(p) => p.triple_click(button),
        }
    }

    fn press_button(&self, button: MouseButton) -> (r: MoverResult<()>)
        ensures
            outcome(r) == not_implemented::<()>(self.spec_name(), "mouse button press"@),
    {
        match self {
            Backend::Windows(p) => p.press_button(button),
            Backend::MacOS(p) => p.press_button(button),
            Backend::Linux(p) => p.press_button(button),
        }
    }

    fn release_button(&self, button: MouseButton) -> (r: MoverResult<()>)
        ensures
            outcome(r) == not_implemented::<()>(self.spec_name(), "mouse button release"@),
    {
        match self {
            Backend::Windows(p) => p.release_button(button),
            Backend::MacOS(p) => p.release_button(button),
            Backend::Linux(p) => p.release_button(button),
        }
    }

    fn drag_to(&self, x: i32, y: i32, button: MouseButton) -> (r: MoverResult<()>)
        ensures
            outcome(r) == not_implemented::<()>(self.spec_name(), "mouse drag to"@),
    {
        match self {
            Backend::Windows(p) => p.drag_to(x, y, button),
            Backend::MacOS(p) => p.drag_to(x, y, button),
            Backend::Linux(p) => p.drag_to(x, y, button),
        }
    }

    fn drag_by(&self, dx: i32, dy: i32, button: MouseButton) -> (r: MoverResult<()>)
        ensures
            outcome(r) == not_implemented::<()>(self.spec_name(), "mouse drag by"@),
    {
        match self {
            Backend::Windows(p) => p.drag_by(dx, dy, button),
            Backend::MacOS(p) => p.drag_by(dx, dy, button),
            Backend::Linux(p) => p.drag_by(dx, dy, button),
        }
    }

    fn scroll_vertical(&self, clicks: i32) -> (r: MoverResult<()>)
        ensures
            outcome(r) == not_implemented::<()>(self.spec_name(), "vertical scroll"@),
    {
        match self {
            Backend::Windows(p) => p.scroll_vertical(clicks),
            Backend::MacOS(p) => p.scroll_vertical(clicks),
            Backend::Linux(p) => p.scroll_vertical(clicks),
        }
    }

    fn scroll_horizontal(&self, clicks: i32) -> (r: MoverResult<()>)
        ensures
            outcome(r) == not_implemented::<()>(self.spec_name(), "horizontal scroll"@),
    {
        match self {
            Backend::Windows(p) => p.scroll_horizontal(clicks),
            Backend::MacOS(p) => p.scroll_horizontal(clicks),
            Backend::Linux(p) => p.scroll_horizontal(clicks),
        }
    }
}

impl ScreenPlatform for Backend {
    fn get_size(&self) -> (r: MoverResult<Size>)
        ensures
            outcome(r) == not_implemented::<Size>(self.spec_name(), "screen size"@),
    {
        match self {
            Backend::Windows(p) => p.get_size(),
            Backend::MacOS(p) => p.get_size(),
            Backend::Linux(p) => p.get_size(),
        }
    }

    fn is_on_screen(&self, x: i32, y: i32) -> (r: MoverResult<bool>)
        ensures
            outcome(r) == not_implemented::<bool>(self.spec_name(), "on screen check"@),
    {
        match self {
            Backend::Windows(p) => p.is_on_screen(x, y),
            Backend::MacOS(p) => p.is_on_screen(x, y),
            Backend::Linux(p) => p.is_on_screen(x, y),
        }
    }

    fn capture_screen(&self) -> (r: MoverResult<Vec<u8>>)
        ensures
            outcome(r) == not_implemented::<Vec<u8>>(self.spec_name(), "screen capture"@),
    {
        match self {
            Backend::Windows(p) => p.capture_screen(),
            Backend::MacOS(p) => p.capture_screen(),
            Backend::Linux(p) => p.capture_screen(),
        }
    }

    fn capture_region(&self, x: i32, y: i32, width: u32, height: u32) -> (r: MoverResult<Vec<u8>>)
        ensures
            outcome(r) == not_implemented::<Vec<u8>>(self.spec_name(), "region capture"@),
    {
        match self {
            Backend::Windows(p) => p.capture_region(x, y, width, height),
            Backend::MacOS(p) => p.capture_region(x, y, width, height),
            Backend::Linux(p) => p.capture_region(x, y, width, height),
        }
    }

    fn get_pixel_color(&self, x: i32, y: i32) -> (r: MoverResult<(u8, u8, u8)>)
        ensures
            outcome(r) == not_implemented::<(u8, u8, u8)>(self.spec_name(), "pixel color"@),
    {
        match self {
            Backend::Windows(p) => p.get_pixel_color(x, y),
            Backend::MacOS(p) => p.get_pixel_color(x, y),
            Backend::Linux(p) => p.get_pixel_color(x, y),
        }
    }
}

impl KeyboardPlatform for Backend {
    fn type_string(&self, text: &str) -> (r: MoverResult<()>)
        ensures
            outcome(r) == not_implemented::<()>(self.spec_name(), "keyboard type string"@),
    {
        match self {
            Backend::Windows(p) => p.type_string(text),
            Backend::MacOS(p) => p.type_string(text),
            Backend::Linux(p) => p.type_string(text),
        }
    }

    fn press_key(&self, key: &str) -> (r: MoverResult<()>)
        ensures
            outcome(r) == not_implemented::<()>(self.spec_name(), "keyboard press key"@),
    {
        match self {
            Backend::Windows(p) => p.press_key(key),
            Backend::MacOS(p) => p.press_key(key),
            Backend::Linux(p) => p.press_key(key),
        }
    }

    fn release_key(&self, key: &str) -> (r: MoverResult<()>)
        ensures
            outcome(r) == not_implemented::<()>(self.spec_name(), "keyboard release key"@),
    {
        match self {
            Backend::Windows(p) => p.release_key(key),
            Backend::MacOS(p) => p.release_key(key),
            Backend::Linux(p) => p.release_key(key),
        }
    }

    fn hold_key(&self, key: &str) -> (r: MoverResult<()>)
        ensures
            outcome(r) == not_implemented::<()>(self.spec_name(), "keyboard hold key"@),
    {
        match self {
            Backend::Windows(p) => p.hold_key(key),
            Backend::MacOS(p) => p.hold_key(key),
            Backend::Linux(p) => p.hold_key(key),
        }
    }

    fn press_keys(&self, keys: &[&str]) -> (r: MoverResult<()>)
        ensures
            outcome(r) == not_implemented::<()>(self.spec_name(), "keyboard press keys"@),
    {
        match self {
            Backend::Windows(p) => p.press_keys(keys),
            Backend::MacOS(p) => p.press_keys(keys),
            Backend::Linux(p) => p.press_keys(keys),
        }
    }

    fn press_hotkey(&self, keys: &[&str]) -> (r: MoverResult<()>)
        ensures
            outcome(r) == not_implemented::<()>(self.spec_name(), "keyboard hotkey"@),
    {
        match self {
            Backend::Windows(p) => p.press_hotkey(keys),
            Backend::MacOS(p) => p.press_hotkey(keys),
            Backend::Linux(p) => p.press_hotkey(keys),
        }
    }
}

impl Platform for Backend {
    fn name(&self) -> (n: &'static str)
        ensures
            n@ == self.spec_name(),
    {
        match self {
            Backend::Windows(p) => p.name(),
            Backend::MacOS(p) => p.name(),
            Backend::Linux(p) => p.name(),
        }
    }

    fn supports_feature(&self, feature: &str) -> (b: bool)
        ensures
            !b,
    {
        match self {
            Backend::Windows(p) => p.supports_feature(feature),
            Backend::MacOS(p) => p.supports_feature(feature),
            Backend::Linux(p) => p.supports_feature(feature),
        }
    }
}

} // verus!
