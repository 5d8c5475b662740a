use mover::error::{MoverError, MoverResult, PlatformError};
use mover::platform::linux::LinuxPlatform;
use mover::platform::ScreenPlatform;
use mover::screen::{
    capture, capture_region, get_pixel_color, get_pixel_color_rgba, is_on_screen,
    pixel_matches_color, pixel_matches_color_with_tolerance, size, within_tolerance, Capture,
    Screen,
};
use mover::types::Size;

/// A screen of one colour.
struct Plain {
    size: Size,
    color: (u8, u8, u8),
}

impl ScreenPlatform for Plain {
    fn get_size(&self) -> MoverResult<Size> {
        Ok(self.size)
    }

    fn is_on_screen(&self, x: i32, y: i32) -> MoverResult<bool> {
        Ok(x >= 0 && y >= 0 && x < self.size.width && y < self.size.height)
    }

    fn capture_screen(&self) -> MoverResult<Vec<u8>> {
        Ok(vec![1, 2, 3, 4])
    }

    fn capture_region(&self, x: i32, y: i32, _width: u32, _height: u32) -> MoverResult<Vec<u8>> {
        if x < 0 || y < 0 {
            Err(MoverError::ScreenCaptureFailed("off screen".to_string()))
        } else {
            Ok(vec![5, 6])
        }
    }

    fn get_pixel_color(&self, x: i32, y: i32) -> MoverResult<(u8, u8, u8)> {
        if x < 0 || y < 0 {
            Err(MoverError::InvalidCoordinates(x, y))
        } else {
            Ok(self.color)
        }
    }
}

fn plain() -> Plain {
    Plain {
        size: Size::new(640, 480),
        color: (10, 128, 250),
    }
}

fn declined<T>(message: &str) -> MoverResult<T> {
    Err(MoverError::PlatformError(
        PlatformError::UnsupportedOperation(message.to_string()),
    ))
}

#[test]
fn queries_ask_the_backend() {
    let screen = plain();
    assert_eq!(Screen::size(&screen), Ok(Size::new(640, 480)));
    assert_eq!(size(&screen), Ok(Size::new(640, 480)));
    assert_eq!(Screen::is_on_screen(&screen, 639, 479), Ok(true));
    assert_eq!(is_on_screen(&screen, 640, 479), Ok(false));
    assert_eq!(Screen::get_pixel_color(&screen, 1, 2), Ok((10, 128, 250)));
    assert_eq!(get_pixel_color(&screen, 1, 2), Ok((10, 128, 250)));
}

#[test]
fn alpha_is_full() {
    let screen = plain();
    assert_eq!(
        Screen::get_pixel_color_rgba(&screen, 1, 2),
        Ok((10, 128, 250, 255))
    );
    assert_eq!(get_pixel_color_rgba(&screen, 1, 2), Ok((10, 128, 250, 255)));
}

#[test]
fn exact_match_compares_every_channel() {
    let screen = plain();
    assert_eq!(
        Screen::pixel_matches_color(&screen, 1, 2, (10, 128, 250)),
        Ok(true)
    );
    assert_eq!(
        pixel_matches_color(&screen, 1, 2, (11, 128, 250)),
        Ok(false)
    );
    assert_eq!(
        pixel_matches_color(&screen, 1, 2, (10, 127, 250)),
        Ok(false)
    );
    assert_eq!(
        pixel_matches_color(&screen, 1, 2, (10, 128, 251)),
        Ok(false)
    );
}

#[test]
fn tolerance_bounds_every_channel() {
    let screen = plain();
    assert_eq!(
        Screen::pixel_matches_color_with_tolerance(&screen, 1, 2, (15, 123, 255), 5),
        Ok(true)
    );
    assert_eq!(
        pixel_matches_color_with_tolerance(&screen, 1, 2, (16, 123, 255), 5),
        Ok(false)
    );
    assert_eq!(
        pixel_matches_color_with_tolerance(&screen, 1, 2, (15, 122, 255), 5),
        Ok(false)
    );
    assert_eq!(
        pixel_matches_color_with_tolerance(&screen, 1, 2, (15, 123, 244), 5),
        Ok(false)
    );
    assert_eq!(
        pixel_matches_color_with_tolerance(&screen, 1, 2, (10, 128, 250), 0),
        Ok(true)
    );
    assert_eq!(
        pixel_matches_color_with_tolerance(&screen, 1, 2, (255, 0, 0), 255),
        Ok(true)
    );
}

#[test]
fn within_tolerance_is_symmetric_per_channel() {
    assert!(within_tolerance((0, 0, 0), (3, 3, 3), 3));
    assert!(within_tolerance((3, 3, 3), (0, 0, 0), 3));
    assert!(!within_tolerance((0, 0, 0), (4, 0, 0), 3));
    assert!(!within_tolerance((0, 4, 0), (0, 0, 0), 3));
    assert!(!within_tolerance((0, 0, 0), (0, 0, 4), 3));
    assert!(within_tolerance((255, 0, 255), (0, 255, 0), 255));
    assert!(!within_tolerance((255, 0, 255), (0, 255, 0), 254));
}

#[test]
fn failed_readings_are_handed_on() {
    let screen = plain();
    assert_eq!(
        Screen::get_pixel_color(&screen, -1, 2),
        Err(MoverError::InvalidCoordinates(-1, 2))
    );
    assert_eq!(
        Screen::get_pixel_color_rgba(&screen, -1, 2),
        Err(MoverError::InvalidCoordinates(-1, 2))
    );
    assert_eq!(
        Screen::pixel_matches_color(&screen, 1, -2, (0, 0, 0)),
        Err(MoverError::InvalidCoordinates(1, -2))
    );
    assert_eq!(
        Screen::pixel_matches_color_with_tolerance(&screen, 1, -2, (0, 0, 0), 9),
        Err(MoverError::InvalidCoordinates(1, -2))
    );
    assert_eq!(
        Screen::size(&LinuxPlatform),
        declined("Linux screen size not yet implemented")
    );
    assert_eq!(
        Screen::is_on_screen(&LinuxPlatform, 0, 0),
        declined("Linux on screen check not yet implemented")
    );
    assert_eq!(
        pixel_matches_color(&LinuxPlatform, 0, 0, (0, 0, 0)),
        declined("Linux pixel color not yet implemented")
    );
}

/// A backend that captures but cannot tell the size of the screen.
struct Unsized(i32, i32);

impl ScreenPlatform for Unsized {
    fn get_size(&self) -> MoverResult<Size> {
        if self.0 == 0 {
            Err(MoverError::Other("no size".to_string()))
        } else {
            Ok(Size::new(self.0, self.1))
        }
    }

    fn is_on_screen(&self, _x: i32, _y: i32) -> MoverResult<bool> {
        Ok(false)
    }

    fn capture_screen(&self) -> MoverResult<Vec<u8>> {
        Ok(vec![9])
    }

    fn capture_region(&self, _x: i32, _y: i32, _width: u32, _height: u32) -> MoverResult<Vec<u8>> {
        Ok(Vec::new())
    }

    fn get_pixel_color(&self, _x: i32, _y: i32) -> MoverResult<(u8, u8, u8)> {
        Ok((0, 0, 0))
    }
}

#[test]
fn capture_has_the_size_of_the_screen() {
    let expected = Capture {
        width: 640,
        height: 480,
        data: vec![1, 2, 3, 4],
    };
    assert_eq!(Screen::capture(&plain()), Ok(expected.clone()));
    assert_eq!(capture(&plain()), Ok(expected));
}

#[test]
fn capture_takes_dimensions_modulo_the_range() {
    assert_eq!(
        Screen::capture(&Unsized(-1, i32::MIN)),
        Ok(Capture {
            width: u32::MAX,
            height: 2147483648,
            data: vec![9],
        })
    );
    assert_eq!(
        Screen::capture(&Unsized(i32::MAX, 1)),
        Ok(Capture {
            width: 2147483647,
            height: 1,
            data: vec![9],
        })
    );
}

#[test]
fn capture_hands_failures_on() {
    assert_eq!(
        Screen::capture(&LinuxPlatform),
        declined("Linux screen capture not yet implemented")
    );
    assert_eq!(
        Screen::capture(&Unsized(0, 0)),
        Err(MoverError::Other("no size".to_string()))
    );
    assert_eq!(
        Screen::capture_region(&LinuxPlatform, 0, 0, 1, 1),
        declined("Linux region capture not yet implemented")
    );
    assert_eq!(
        capture_region(&plain(), -1, 0, 5, 5),
        Err(MoverError::ScreenCaptureFailed("off screen".to_string()))
    );
}

#[test]
fn region_capture_has_the_size_of_the_region() {
    let expected = Capture {
        width: 30,
        height: 20,
        data: vec![5, 6],
    };
    assert_eq!(
        Screen::capture_region(&plain(), 1, 2, 30, 20),
        Ok(expected.clone())
    );
    assert_eq!(capture_region(&plain(), 1, 2, 30, 20), Ok(expected));
    assert_eq!(
        capture_region(&plain(), 0, 0, 0, u32::MAX),
        Ok(Capture {
            width: 0,
            height: u32::MAX,
            data: vec![5, 6],
        })
    );
}
