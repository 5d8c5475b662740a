//! Geometry and input value types shared by every component.

use vstd::prelude::*;
use vstd::string::*;

use crate::codec::{render_int, write_int};
use crate::platform::HostOs;

verus! {

/// A point on the screen, in pixels, with the origin at the top-left corner.
#[derive(Debug, Clone, Copy, PartialEq, Eq, Ord, Hash, Structural)]
pub struct Point {
    pub x: i32,
    pub y: i32,
}

impl Point {
    /// Creates a point from its coordinates.
    pub fn new(x: i32, y: i32) -> (p: Point)
        ensures
            p == (Point { x, y }),
    {
        Point { x, y }
    }

    /// The point as text: its coordinates in parentheses.
    pub open spec fn spec_display(self) -> Seq<char> {
        "("@ + render_int(self.x as int) + ", "@ + render_int(self.y as int) + ")"@
    }

    /// The point as text, as it is shown to users: `(x, y)`.
    pub fn display(&self) -> (text: String)
        ensures
            text@ == self.spec_display(),
    {
        let mut text = String::from_str("(");
        write_int(&mut text, self.x as i64);
        text.append(", ");
        write_int(&mut text, self.y as i64);
        text.append(")");
        text
    }

    /// Whether the point lies inside a screen of the given size.
    pub open spec fn on_screen(self, screen_size: Size) -> bool {
        0 <= self.x < screen_size.width && 0 <= self.y < screen_size.height
    }

    /// Whether the point lies inside a screen of the given size.
    pub fn is_on_screen(&self, screen_size: &Size) -> (b: bool)
        ensures
            b == self.on_screen(*screen_size),
    {
        self.x >= 0 && self.x < screen_size.width && self.y >= 0 && self.y < screen_size.height
    }
}

impl From<(i32, i32)> for Point {
    /// The point with the pair's components as `x` and `y`.
    fn from(pair: (i32, i32)) -> (p: Point) {
        Point { x: pair.0, y: pair.1 }
    }
}

impl vstd::std_specs::convert::FromSpecImpl<(i32, i32)> for Point {
    open spec fn obeys_from_spec() -> bool {
        true
    }

    open spec fn from_spec(pair: (i32, i32)) -> Point {
        Point { x: pair.0, y: pair.1 }
    }
}

impl From<Point> for (i32, i32) {
    /// The point's `x` and `y` as a pair.
    fn from(point: Point) -> (pair: (i32, i32)) {
        (point.x, point.y)
    }
}

impl vstd::std_specs::convert::FromSpecImpl<Point> for (i32, i32) {
    open spec fn obeys_from_spec() -> bool {
        true
    }

    open spec fn from_spec(point: Point) -> (i32, i32) {
        (point.x, point.y)
    }
}

/// The dimensions of a screen or region, in pixels.
#[derive(Debug, Clone, Copy, PartialEq, Eq, Ord, Hash, Structural)]
pub struct Size {
    pub width: i32,
    pub height: i32,
}

impl Size {
    /// Creates a size from its dimensions.
    pub fn new(width: i32, height: i32) -> (s: Size)
        ensures
            s == (Size { width, height }),
    {
        Size { width, height }
    }

    /// The size as text: width and height with an `x` between them.
    pub open spec fn spec_display(self) -> Seq<char> {
        render_int(self.width as int) + "x"@ + render_int(self.height as int)
    }

    /// The size as text, as it is shown to users: `widthxheight`.
    pub fn display(&self) -> (text: String)
        ensures
            text@ == self.spec_display(),
    {
        let mut text = String::new();
        write_int(&mut text, self.width as i64);
        text.append("x");
        write_int(&mut text, self.height as i64);
        assert(text@ =~= self.spec_display());
        text
    }

    /// The number of pixels covered, as a mathematical integer.
    pub open spec fn spec_area(self) -> int {
        self.width * self.height
    }

    /// The number of pixels covered, widened so that the product cannot overflow.
    pub fn area(&self) -> (a: i64)
        ensures
            a == self.spec_area(),
    {
        let w: i64 = self.width as i64;
        let h: i64 = self.height as i64;
        assert(-0x8000_0000 <= w <= 0x7fff_ffff && -0x8000_0000 <= h <= 0x7fff_ffff);
        assert(-0x4000_0000_0000_0000 <= w * h <= 0x4000_0000_0000_0000) by (nonlinear_arith)
            requires
                -0x8000_0000 <= w <= 0x7fff_ffff,
                -0x8000_0000 <= h <= 0x7fff_ffff,
        ;
        w * h
    }

    /// Whether a point lies within this size.
    pub fn contains(&self, point: &Point) -> (b: bool)
        ensures
            b == point.on_screen(*self),
    {
        point.x >= 0 && point.x < self.width && point.y >= 0 && point.y < self.height
    }
}

impl From<(i32, i32)> for Size {
    /// The size with the pair's components as width and height.
    fn from(pair: (i32, i32)) -> (s: Size) {
        Size { width: pair.0, height: pair.1 }
    }
}

impl vstd::std_specs::convert::FromSpecImpl<(i32, i32)> for Size {
    open spec fn obeys_from_spec() -> bool {
        true
    }

    open spec fn from_spec(pair: (i32, i32)) -> Size {
        Size { width: pair.0, height: pair.1 }
    }
}

impl From<Size> for (i32, i32) {
    /// The size's width and height as a pair.
    fn from(size: Size) -> (pair: (i32, i32)) {
        (size.width, size.height)
    }
}

impl vstd::std_specs::convert::FromSpecImpl<Size> for (i32, i32) {
    open spec fn obeys_from_spec() -> bool {
        true
    }

    open spec fn from_spec(size: Size) -> (i32, i32) {
        (size.width, size.height)
    }
}

/// A button of a pointing device.
///
/// `Primary` and `Secondary` stand for whichever buttons the operating
/// system treats as the main and the context button, by convention the left
/// and the right one.
#[derive(Debug, Clone, Copy, PartialEq, Eq, Hash, Structural)]
pub enum MouseButton {
    Left,
    Middle,
    Right,
    Primary,
    Secondary,
    Button4,
    Button5,
    Button6,
    Button7,
}

impl MouseButton {
    /// The button's number in the X11 numbering.
    pub open spec fn spec_number(self) -> u8 {
        match self {
            MouseButton::Left => 1,
            MouseButton::Middle => 2,
            MouseButton::Right => 3,
            MouseButton::Primary => 1,
            MouseButton::Secondary => 3,
            MouseButton::Button4 => 4,
            MouseButton::Button5 => 5,
            MouseButton::Button6 => 6,
            MouseButton::Button7 => 7,
        }
    }

    /// The button's number in the X11 numbering; `Primary` and `Secondary`
    /// count as the left and the right button.
    pub fn number(&self) -> (n: u8)
        ensures
            n == self.spec_number(),
            1 <= n <= 7,
    {
        match self {
            MouseButton::Left => 1,
            MouseButton::Middle => 2,
            MouseButton::Right => 3,
            MouseButton::Primary => 1,
            MouseButton::Secondary => 3,
            MouseButton::Button4 => 4,
            MouseButton::Button5 => 5,
            MouseButton::Button6 => 6,
            MouseButton::Button7 => 7,
        }
    }

    /// Whether the button is one of the four extended buttons.
    pub open spec fn is_extended(self) -> bool {
        self is Button4 || self is Button5 || self is Button6 || self is Button7
    }

    /// Whether a host of the given kind can press this button: Linux knows
    /// every button, Windows and macOS all but the extended ones.
    pub fn is_valid_for_platform(&self, host: HostOs) -> (b: bool)
        ensures
            b == (host is Linux || !self.is_extended()),
    {
        match host {
            HostOs::Linux => true,
            HostOs::Windows | HostOs::MacOS => match self {
                MouseButton::Left
                | MouseButton::Middle
                | MouseButton::Right
                | MouseButton::Primary
                | MouseButton::Secondary => true,
                MouseButton::Button4
                | MouseButton::Button5
                | MouseButton::Button6
                | MouseButton::Button7 => false,
            },
        }
    }

    /// The button's lower-case name.
    pub open spec fn spec_name(self) -> Seq<char> {
        match self {
            MouseButton::Left => "left"@,
            MouseButton::Middle => "middle"@,
            MouseButton::Right => "right"@,
            MouseButton::Primary => "primary"@,
            MouseButton::Secondary => "secondary"@,
            MouseButton::Button4 => "button4"@,
            MouseButton::Button5 => "button5"@,
            MouseButton::Button6 => "button6"@,
            MouseButton::Button7 => "button7"@,
        }
    }

    /// The button's lower-case name, as it is shown to users.
    pub fn name(&self) -> (s: &'static str)
        ensures
            s@ == self.spec_name(),
    {
        match self {
            MouseButton::Left => "left",
            MouseButton::Middle => "middle",
            MouseButton::Right => "right",
            MouseButton::Primary => "primary",
            MouseButton::Secondary => "secondary",
            MouseButton::Button4 => "button4",
            MouseButton::Button5 => "button5",
            MouseButton::Button6 => "button6",
            MouseButton::Button7 => "button7",
        }
    }
}

impl Default for MouseButton {
    fn default() -> (b: MouseButton)
        ensures
            b == MouseButton::Primary,
    {
        MouseButton::Primary
    }
}

/// What is done to a key or a button.
#[derive(Debug, Clone, Copy, PartialEq, Eq, Hash, Structural)]
pub enum Direction {
    /// Press it and keep it held.
    Press,
    /// Release it.
    Release,
    /// Press it, then release it.
    Click,
}

/// The axis along which a scroll moves.
#[derive(Debug, Clone, Copy, PartialEq, Eq, Hash, Structural)]
pub enum Axis {
    Horizontal,
    Vertical,
}

/// The direction of one scroll step.
#[derive(Debug, Clone, Copy, PartialEq, Eq, Hash, Structural)]
pub enum ScrollDirection {
    Up,
    Down,
    Left,
    Right,
}

impl ScrollDirection {
    /// The sign of a scroll step: one for up and right, minus one for down
    /// and left.
    pub open spec fn spec_value(self) -> int {
        if self is Up || self is Right {
            1
        } else {
            -1
        }
    }

    /// The sign of a scroll step: one for up and right, minus one for down
    /// and left.
    pub fn value(&self) -> (v: i32)
        ensures
            v == self.spec_value(),
    {
        match self {
            ScrollDirection::Up | ScrollDirection::Right => 1,
            ScrollDirection::Down | ScrollDirection::Left => -1,
        }
    }

    /// The direction's lower-case name.
    pub open spec fn spec_name(self) -> Seq<char> {
        match self {
            ScrollDirection::Up => "up"@,
            ScrollDirection::Down => "down"@,
            ScrollDirection::Left => "left"@,
            ScrollDirection::Right => "right"@,
        }
    }

    /// The direction's lower-case name, as it is shown to users.
    pub fn name(&self) -> (s: &'static str)
        ensures
            s@ == self.spec_name(),
    {
        match self {
            ScrollDirection::Up => "up",
            ScrollDirection::Down => "down",
            ScrollDirection::Left => "left",
            ScrollDirection::Right => "right",
        }
    }
}

} // verus!
