//! Screen queries: the screen's size, whether a point is on it, the colour
//! of a pixel, and captures.
//!
//! Each query asks the backend of the session once and hands a failure on
//! as it came. What is made of the backend's answer is stated by a function
//! of that answer.

use vstd::prelude::*;

use crate::error::{outcome, MoverErrorView, MoverResult, Outcome};
use crate::platform::ScreenPlatform;
use crate::types::Size;

verus! {

/// A colour as red, green and blue.
pub type Rgb = (u8, u8, u8);

/// A colour as red, green, blue and alpha.
pub type Rgba = (u8, u8, u8, u8);

/// What a capture yields: the bytes that the backend captured, and the
/// dimensions of the image that they stand for.
#[derive(Debug, Clone, PartialEq, Eq)]
pub struct Capture {
    pub width: u32,
    pub height: u32,
    pub data: Vec<u8>,
}

/// A dimension of the screen as a dimension of an image: the same number,
/// taken modulo two to the power of thirty-two.
pub open spec fn image_dimension(d: i32) -> u32 {
    if d < 0 {
        (d + 0x1_0000_0000) as u32
    } else {
        d as u32
    }
}

/// What a capture of the whole screen yields for what the backend answered
/// when it was asked for the screen's size.
pub open spec fn spec_capture(data: Vec<u8>, sized: MoverResult<Size>) -> Outcome<Capture> {
    match sized {
        Ok(size) => Ok(
            Capture {
                width: image_dimension(size.width),
                height: image_dimension(size.height),
                data,
            },
        ),
        Err(e) => Err(e@),
    }
}

/// What a capture of a region yields for what the backend answered when it
/// was asked to capture.
pub open spec fn spec_capture_region(captured: MoverResult<Vec<u8>>, width: u32, height: u32)
    -> Outcome<Capture> {
    match captured {
        Ok(data) => Ok(Capture { width, height, data }),
        Err(e) => Err(e@),
    }
}

/// The distance between two values of a colour channel.
pub open spec fn channel_distance(a: u8, b: u8) -> int {
    if a >= b {
        a - b
    } else {
        b - a
    }
}

/// Whether each channel of `actual` is within `tolerance` of the same
/// channel of `expected`.
pub open spec fn spec_within_tolerance(actual: Rgb, expected: Rgb, tolerance: u8) -> bool {
    &&& channel_distance(actual.0, expected.0) <= tolerance
    &&& channel_distance(actual.1, expected.1) <= tolerance
    &&& channel_distance(actual.2, expected.2) <= tolerance
}

/// A pixel reading with full alpha added.
pub open spec fn spec_with_alpha(reading: MoverResult<Rgb>) -> Outcome<Rgba> {
    match reading {
        Ok((r, g, b)) => Ok((r, g, b, 255u8)),
        Err(e) => Err(e@),
    }
}

/// Whether a pixel reading is the expected colour.
pub open spec fn spec_matches(reading: MoverResult<Rgb>, expected: Rgb) -> Outcome<bool> {
    match reading {
        Ok(actual) => Ok(actual == expected),
        Err(e) => Err(e@),
    }
}

/// Whether a pixel reading is within a tolerance of the expected colour.
pub open spec fn spec_matches_with_tolerance(
    reading: MoverResult<Rgb>,
    expected: Rgb,
    tolerance: u8,
) -> Outcome<bool> {
    match reading {
        Ok(actual) => Ok(spec_within_tolerance(actual, expected, tolerance)),
        Err(e) => Err(e@),
    }
}

/// The distance between two values of a colour channel.
fn distance(a: u8, b: u8) -> (d: u8)
    ensures
        d == channel_distance(a, b),
{
    if a >= b {
        a - b
    } else {
        b - a
    }
}

/// Whether each channel of `actual` is within `tolerance` of the same
/// channel of `expected`.
pub fn within_tolerance(actual: Rgb, expected: Rgb, tolerance: u8) -> (b: bool)
    ensures
        b == spec_within_tolerance(actual, expected, tolerance),
{
    distance(actual.0, expected.0) <= tolerance && distance(actual.1, expected.1) <= tolerance
        && distance(actual.2, expected.2) <= tolerance
}

/// A dimension of the screen as a dimension of an image.
fn dimension(d: i32) -> (r: u32)
    ensures
        r == image_dimension(d),
{
    if d < 0 {
        (d as i64 + 0x1_0000_0000) as u32
    } else {
        d as u32
    }
}

/// Screen queries against the backend of a session.
pub struct Screen;

impl Screen {
    /// Captures the whole screen: the backend is asked to capture, then for
    /// the screen's size. The first failure is handed on.
    pub fn capture<P: ScreenPlatform>(platform: &P) -> (r: MoverResult<Capture>)
        ensures
            exists|captured: MoverResult<Vec<u8>>| #[trigger]
                call_ensures(P::capture_screen, (platform,), captured) && match captured {
                    Ok(data) => exists|sized: MoverResult<Size>| #[trigger]
                        call_ensures(P::get_size, (platform,), sized) && outcome(r)
                            == spec_capture(data, sized),
                    Err(e) => outcome(r) == Err::<Capture, MoverErrorView>(e@),
                },
    {
        let captured = platform.capture_screen();
        match captured {
            Ok(data) => {
                let sized = platform.get_size();
                match sized {
                    Ok(size) => Ok(
                        Capture {
                            width: dimension(size.width),
                            height: dimension(size.height),
                            data,
                        },
                    ),
                    Err(e) => Err(e),
                }
            },
            Err(e) => Err(e),
        }
    }

    /// Captures a region of the screen; the image has the region's
    /// dimensions. A failure of the backend is handed on.
    pub fn capture_region<P: ScreenPlatform>(
        platform: &P,
        x: i32,
        y: i32,
        width: u32,
        height: u32,
    ) -> (r: MoverResult<Capture>)
        ensures
            exists|captured: MoverResult<Vec<u8>>| #[trigger]
                call_ensures(P::capture_region, (platform, x, y, width, height), captured)
                    && outcome(r) == spec_capture_region(captured, width, height),
    {
        let captured = platform.capture_region(x, y, width, height);
        match captured {
            Ok(data) => Ok(Capture { width, height, data }),
            Err(e) => Err(e),
        }
    }

    /// The colour of the pixel at the coordinates, as the backend reads it.
    pub fn get_pixel_color<P: ScreenPlatform>(platform: &P, x: i32, y: i32) -> (r: MoverResult<
        Rgb,
    >)
        ensures
            call_ensures(P::get_pixel_color, (platform, x, y), r),
    {
        platform.get_pixel_color(x, y)
    }

    /// The colour of the pixel at the coordinates with its alpha, which is
    /// taken to be full.
    pub fn get_pixel_color_rgba<P: ScreenPlatform>(platform: &P, x: i32, y: i32) -> (r:
        MoverResult<Rgba>)
        ensures
            exists|reading: MoverResult<Rgb>| #[trigger]
                call_ensures(P::get_pixel_color, (platform, x, y), reading) && outcome(r)
                    == spec_with_alpha(reading),
    {
        let reading = platform.get_pixel_color(x, y);
        match reading {
            Ok((r, g, b)) => Ok((r, g, b, 255)),
            Err(e) => Err(e),
        }
    }

    /// Whether the pixel at the coordinates has exactly the expected colour.
    pub fn pixel_matches_color<P: ScreenPlatform>(
        platform: &P,
        x: i32,
        y: i32,
        expected_color: Rgb,
    ) -> (r: MoverResult<bool>)
        ensures
            exists|reading: MoverResult<Rgb>| #[trigger]
                call_ensures(P::get_pixel_color, (platform, x, y), reading) && outcome(r)
                    == spec_matches(reading, expected_color),
    {
        let reading = Self::get_pixel_color(platform, x, y);
        match reading {
            Ok(actual) => Ok(
                actual.0 == expected_color.0 && actual.1 == expected_color.1 && actual.2
                    == expected_color.2,
            ),
            Err(e) => Err(e),
        }
    }

    /// Whether each channel of the pixel at the coordinates is within
    /// `tolerance` of the expected colour's.
    pub fn pixel_matches_color_with_tolerance<P: ScreenPlatform>(
        platform: &P,
        x: i32,
        y: i32,
        expected_color: Rgb,
        tolerance: u8,
    ) -> (r: MoverResult<bool>)
        ensures
            exists|reading: MoverResult<Rgb>| #[trigger]
                call_ensures(P::get_pixel_color, (platform, x, y), reading) && outcome(r)
                    == spec_matches_with_tolerance(reading, expected_color, tolerance),
    {
        let reading = Self::get_pixel_color(platform, x, y);
        match reading {
            Ok(actual) => Ok(within_tolerance(actual, expected_color, tolerance)),
            Err(e) => Err(e),
        }
    }

    /// The size of the screen, as the backend reads it.
    pub fn size<P: ScreenPlatform>(platform: &P) -> (r: MoverResult<Size>)
        ensures
            call_ensures(P::get_size, (platform,), r),
    {
        platform.get_size()
    }

    /// Whether the coordinates are on the screen, as the backend judges it.
    pub fn is_on_screen<P: ScreenPlatform>(platform: &P, x: i32, y: i32) -> (r: MoverResult<bool>)
        ensures
            call_ensures(P::is_on_screen, (platform, x, y), r),
    {
        platform.is_on_screen(x, y)
    }
}

/// Captures the whole screen: the backend is asked to capture, then for the
/// screen's size. The first failure is handed on.
pub fn capture<P: ScreenPlatform>(platform: &P) -> (r: MoverResult<Capture>)
    ensures
        exists|captured: MoverResult<Vec<u8>>| #[trigger]
            call_ensures(P::capture_screen, (platform,), captured) && match captured {
                Ok(data) => exists|sized: MoverResult<Size>| #[trigger]
                    call_ensures(P::get_size, (platform,), sized) && outcome(r) == spec_capture(
                        data,
                        sized,
                    ),
                Err(e) => outcome(r) == Err::<Capture, MoverErrorView>(e@),
            },
{
    Screen::capture(platform)
}

/// Captures a region of the screen; the image has the region's dimensions.
pub fn capture_region<P: ScreenPlatform>(
    platform: &P,
    x: i32,
    y: i32,
    width: u32,
    height: u32,
) -> (r: MoverResult<Capture>)
    ensures
        exists|captured: MoverResult<Vec<u8>>| #[trigger]
            call_ensures(P::capture_region, (platform, x, y, width, height), captured)
                && outcome(r) == spec_capture_region(captured, width, height),
{
    Screen::capture_region(platform, x, y, width, height)
}

/// The colour of the pixel at the coordinates, as the backend reads it.
pub fn get_pixel_color<P: ScreenPlatform>(platform: &P, x: i32, y: i32) -> (r: MoverResult<Rgb>)
    ensures
        call_ensures(P::get_pixel_color, (platform, x, y), r),
{
    Screen::get_pixel_color(platform, x, y)
}

/// The colour of the pixel at the coordinates with its alpha, which is taken
/// to be full.
pub fn get_pixel_color_rgba<P: ScreenPlatform>(platform: &P, x: i32, y: i32) -> (r: MoverResult<
    Rgba,
>)
    ensures
        exists|reading: MoverResult<Rgb>| #[trigger]
            call_ensures(P::get_pixel_color, (platform, x, y), reading) && outcome(r)
                == spec_with_alpha(reading),
{
    Screen::get_pixel_color_rgba(platform, x, y)
}

/// Whether the pixel at the coordinates has exactly the expected colour.
pub fn pixel_matches_color<P: ScreenPlatform>(
    platform: &P,
    x: i32,
    y: i32,
    expected_color: Rgb,
) -> (r: MoverResult<bool>)
    ensures
        exists|reading: MoverResult<Rgb>| #[trigger]
            call_ensures(P::get_pixel_color, (platform, x, y), reading) && outcome(r)
                == spec_matches(reading, expected_color),
{
    Screen::pixel_matches_color(platform, x, y, expected_color)
}

/// Whether each channel of the pixel at the coordinates is within
/// `tolerance` of the expected colour's.
pub fn pixel_matches_color_with_tolerance<P: ScreenPlatform>(
    platform: &P,
    x: i32,
    y: i32,
    expected_color: Rgb,
    tolerance: u8,
) -> (r: MoverResult<bool>)
    ensures
        exists|reading: MoverResult<Rgb>| #[trigger]
            call_ensures(P::get_pixel_color, (platform, x, y), reading) && outcome(r)
                == spec_matches_with_tolerance(reading, expected_color, tolerance),
{
    Screen::pixel_matches_color_with_tolerance(platform, x, y, expected_color, tolerance)
}

/// The size of the screen, as the backend reads it.
pub fn size<P: ScreenPlatform>(platform: &P) -> (r: MoverResult<Size>)
    ensures
        call_ensures(P::get_size, (platform,), r),
{
    Screen::size(platform)
}

/// Whether the coordinates are on the screen, as the backend judges it.
pub fn is_on_screen<P: ScreenPlatform>(platform: &P, x: i32, y: i32) -> (r: MoverResult<bool>)
    ensures
        call_ensures(P::is_on_screen, (platform, x, y), r),
{
    Screen::is_on_screen(platform, x, y)
}

} // verus!
