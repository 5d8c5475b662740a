use mover::error::{MoverError, MoverResult, PlatformError};
use mover::platform::linux::LinuxPlatform;
use mover::platform::MousePlatform;
use mover::types::{MouseButton, Point, Size};
use mover::utils::{
    get_point_on_line, point_in_rect, sleep, ActionRecorder, FailsafeManager, MoverConfig,
    RecordedAction,
};

/// A backend whose pointer rests at a fixed position.
struct PointerAt(i32, i32);

impl MousePlatform for PointerAt {
    fn get_position(&self) -> MoverResult<Point> {
        Ok(Point::new(self.0, self.1))
    }

    fn move_to(&self, _x: i32, _y: i32) -> MoverResult<()> {
        Ok(())
    }

    fn move_by(&self, _dx: i32, _dy: i32) -> MoverResult<()> {
        Ok(())
    }

    fn move_to_with_tween<F: Fn(u32) -> i64>(
        &self,
        _x: i32,
        _y: i32,
        _duration: i64,
        _tween: F,
    ) -> MoverResult<()> {
        Ok(())
    }

    fn click(&self, _button: MouseButton) -> MoverResult<()> {
        Ok(())
    }

    fn click_at(&self, _x: i32, _y: i32, _button: MouseButton) -> MoverResult<()> {
        Ok(())
    }

    fn double_click(&self, _button: MouseButton) -> MoverResult<()> {
        Ok(())
    }

    fn triple_click(&self, _button: MouseButton) -> MoverResult<()> {
        Ok(())
    }

    fn press_button(&self, _button: MouseButton) -> MoverResult<()> {
        Ok(())
    }

    fn release_button(&self, _button: MouseButton) -> MoverResult<()> {
        Ok(())
    }

    fn drag_to(&self, _x: i32, _y: i32, _button: MouseButton) -> MoverResult<()> {
        Ok(())
    }

    fn drag_by(&self, _dx: i32, _dy: i32, _button: MouseButton) -> MoverResult<()> {
        Ok(())
    }

    fn scroll_vertical(&self, _clicks: i32) -> MoverResult<()> {
        Ok(())
    }

    fn scroll_horizontal(&self, _clicks: i32) -> MoverResult<()> {
        Ok(())
    }
}

fn triggered() -> MoverResult<()> {
    Err(MoverError::FailsafeTriggered(
        "Mouse moved to failsafe position".to_string(),
    ))
}

fn manager(enabled: bool, size: Size) -> FailsafeManager {
    let mut config = MoverConfig::default();
    config.failsafe = enabled;
    let mut manager = FailsafeManager::new(config);
    manager.update_failsafe_points(size);
    manager
}

#[test]
fn default_config() {
    let config = MoverConfig::default();
    assert_eq!(config.pause, 100_000);
    assert!(config.failsafe);
    assert_eq!(
        config.failsafe_points,
        vec![Point::new(0, 0), Point::new(0, 0)]
    );
    assert_eq!(config.minimum_duration, 100_000);
    assert_eq!(config.minimum_sleep, 50_000);
    assert!(!config.log_screenshots);
    assert_eq!(config.screenshot_log_limit, Some(10));
}

#[test]
fn failsafe_triggers_on_each_corner() {
    let manager = manager(true, Size::new(1920, 1080));
    for (x, y) in [(0, 0), (1919, 0), (0, 1079), (1919, 1079)] {
        assert_eq!(manager.check_position(Point::new(x, y)), triggered());
        assert_eq!(manager.check(&PointerAt(x, y)), triggered());
    }
}

#[test]
fn failsafe_does_not_trigger_one_pixel_off_a_corner() {
    let manager = manager(true, Size::new(1920, 1080));
    for (cx, cy) in [(0, 0), (1919, 0), (0, 1079), (1919, 1079)] {
        for dx in [-1, 0, 1] {
            for dy in [-1, 0, 1] {
                if dx != 0 || dy != 0 {
                    let p = Point::new(cx + dx, cy + dy);
                    assert_eq!(manager.check_position(p), Ok(()));
                    assert_eq!(manager.check(&PointerAt(p.x, p.y)), Ok(()));
                }
            }
        }
    }
    assert_eq!(manager.check(&PointerAt(960, 540)), Ok(()));
}

#[test]
fn corners_of_a_tiny_screen_are_neighbours() {
    let manager = manager(true, Size::new(2, 1080));
    assert_eq!(manager.check_position(Point::new(1, 0)), triggered());
}

#[test]
fn disabled_failsafe_never_triggers() {
    let manager = manager(false, Size::new(1920, 1080));
    for (x, y) in [(0, 0), (1919, 0), (0, 1079), (1919, 1079), (5, 5)] {
        assert_eq!(manager.check_position(Point::new(x, y)), Ok(()));
        assert_eq!(manager.check(&PointerAt(x, y)), Ok(()));
    }
}

#[test]
fn disabled_failsafe_does_not_ask_the_backend() {
    let manager = manager(false, Size::new(1920, 1080));
    assert_eq!(manager.check(&LinuxPlatform), Ok(()));
}

#[test]
fn enabled_failsafe_hands_a_failed_reading_on() {
    let manager = manager(true, Size::new(1920, 1080));
    assert_eq!(
        manager.check(&LinuxPlatform),
        Err(MoverError::PlatformError(
            PlatformError::UnsupportedOperation(
                "Linux mouse position not yet implemented".to_string()
            )
        ))
    );
}

#[test]
fn default_sentinel_is_the_origin() {
    let manager = FailsafeManager::new(MoverConfig::default());
    assert_eq!(manager.check_position(Point::new(0, 0)), triggered());
    assert_eq!(manager.check_position(Point::new(1919, 0)), Ok(()));
}

#[test]
fn sentinels_follow_the_screen_size() {
    let mut manager = manager(true, Size::new(1920, 1080));
    manager.update_failsafe_points(Size::new(800, 600));
    assert_eq!(manager.check_position(Point::new(1919, 1079)), Ok(()));
    assert_eq!(manager.check_position(Point::new(799, 599)), triggered());
    assert_eq!(manager.check_position(Point::new(799, 0)), triggered());
    assert_eq!(manager.check_position(Point::new(0, 599)), triggered());
    assert_eq!(manager.check_position(Point::new(0, 0)), triggered());
}

#[test]
fn configured_sentinels_are_used_as_given() {
    let mut config = MoverConfig::default();
    config.failsafe_points = vec![Point::new(10, 10), Point::new(-1, 7)];
    let manager = FailsafeManager::new(config);
    assert_eq!(manager.check_position(Point::new(10, 10)), triggered());
    assert_eq!(manager.check_position(Point::new(-1, 7)), triggered());
    assert_eq!(manager.check_position(Point::new(0, 0)), Ok(()));
    assert_eq!(manager.check_position(Point::new(11, 10)), Ok(()));
    assert_eq!(manager.check_position(Point::new(10, 9)), Ok(()));
}

#[test]
fn recorder_appends_in_order() {
    let mut recorder = ActionRecorder::new(0);
    assert!(recorder.get_actions().is_empty());
    recorder.record_mouse_move(1, 2, 500_000);
    recorder.record_mouse_click(3, 4, MouseButton::Right);
    recorder.record_mouse_drag(Point::new(5, 6), Point::new(7, 8), MouseButton::Left);
    recorder.record_key_press("enter".to_string());
    recorder.record_key_type("hello".to_string());
    recorder.record_screenshot("shot.png".to_string());
    recorder.record_wait(250_000);
    assert_eq!(
        recorder.get_actions().to_vec(),
        vec![
            RecordedAction::MouseMove {
                x: 1,
                y: 2,
                duration: 500_000
            },
            RecordedAction::MouseClick {
                x: 3,
                y: 4,
                button: MouseButton::Right
            },
            RecordedAction::MouseDrag {
                from: Point::new(5, 6),
                to: Point::new(7, 8),
                button: MouseButton::Left
            },
            RecordedAction::KeyPress {
                key: "enter".to_string()
            },
            RecordedAction::KeyType {
                text: "hello".to_string()
            },
            RecordedAction::Screenshot {
                path: "shot.png".to_string()
            },
            RecordedAction::Wait { duration: 250_000 },
        ]
    );
}

#[test]
fn recorder_keeps_earlier_entries() {
    let mut recorder = ActionRecorder::new(5);
    recorder.record_wait(1);
    let before = recorder.get_actions().to_vec();
    recorder.record_wait(2);
    assert_eq!(recorder.get_actions()[..1].to_vec(), before);
    assert_eq!(recorder.get_actions().len(), 2);
}

#[test]
fn total_time_is_elapsed_time() {
    let mut recorder = ActionRecorder::new(1_000);
    recorder.record_wait(10);
    recorder.record_wait(20);
    assert_eq!(recorder.get_total_time(1_000), 0);
    assert_eq!(recorder.get_total_time(4_500), 3_500);
    assert_eq!(recorder.get_total_time(999), 0);
    assert_eq!(ActionRecorder::new(0).get_total_time(u64::MAX), u64::MAX);
}

#[test]
fn point_on_line() {
    assert_eq!(get_point_on_line(0, 0, 100, 100, 500_000), Point::new(50, 50));
    assert_eq!(get_point_on_line(0, 0, 100, 100, 0), Point::new(0, 0));
    assert_eq!(
        get_point_on_line(0, 0, 100, 100, 1_000_000),
        Point::new(100, 100)
    );
}

#[test]
fn point_on_line_truncates_the_position() {
    assert_eq!(get_point_on_line(0, 0, 10, -10, 333_333), Point::new(3, -3));
    // The position itself is rounded toward zero, not the offset.
    assert_eq!(get_point_on_line(-5, 5, -2, 2, 500_000), Point::new(-3, 3));
    assert_eq!(get_point_on_line(-10, 0, 0, 0, 250_000), Point::new(-7, 0));
    assert_eq!(get_point_on_line(7, -7, 7, -7, 123_456), Point::new(7, -7));
    assert_eq!(
        get_point_on_line(-3, 9, 12, -4, 0),
        Point::new(-3, 9)
    );
    assert_eq!(
        get_point_on_line(-3, 9, 12, -4, 1_000_000),
        Point::new(12, -4)
    );
}

#[test]
fn point_on_line_extrapolates_and_saturates() {
    assert_eq!(
        get_point_on_line(0, 0, 100, 100, 2_000_000),
        Point::new(200, 200)
    );
    assert_eq!(
        get_point_on_line(0, 0, 100, 100, -1_500_000),
        Point::new(-150, -150)
    );
    assert_eq!(
        get_point_on_line(i32::MIN, i32::MAX, i32::MAX, i32::MIN, i64::MAX),
        Point::new(i32::MAX, i32::MIN)
    );
    assert_eq!(
        get_point_on_line(i32::MIN, i32::MAX, i32::MAX, i32::MIN, 1_000_000),
        Point::new(i32::MAX, i32::MIN)
    );
}

#[test]
fn point_in_rect_excludes_far_edges() {
    let p = Point::new(10, 20);
    assert!(point_in_rect(&p, 10, 20, 1, 1));
    assert!(point_in_rect(&p, 0, 0, 11, 21));
    assert!(!point_in_rect(&p, 0, 0, 10, 21));
    assert!(!point_in_rect(&p, 0, 0, 11, 20));
    assert!(!point_in_rect(&p, 11, 20, 5, 5));
    assert!(!point_in_rect(&p, 10, 21, 5, 5));
    assert!(!point_in_rect(&p, 10, 20, 0, 5));
    assert!(point_in_rect(&Point::new(-3, -3), -5, -5, 3, 3));
    assert!(!point_in_rect(&Point::new(-2, -3), -5, -5, 3, 3));
    assert!(point_in_rect(
        &Point::new(i32::MAX, i32::MAX),
        i32::MIN,
        i32::MIN,
        u32::MAX,
        u32::MAX
    ) == false);
    assert!(point_in_rect(
        &Point::new(i32::MAX - 1, 0),
        i32::MIN,
        0,
        u32::MAX,
        1
    ));
}

#[test]
fn sleep_is_a_pause_only_for_positive_durations() {
    assert_eq!(sleep(1_500_000), Some(1_500_000));
    assert_eq!(sleep(1), Some(1));
    assert_eq!(sleep(0), None);
    assert_eq!(sleep(-1), None);
    assert_eq!(sleep(i64::MAX), Some(i64::MAX as u64));
}
