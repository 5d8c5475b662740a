use mover::error::{MoverError, PlatformError};
use mover::platform::linux::LinuxPlatform;
use mover::platform::macos::MacOSPlatform;
use mover::platform::windows::WindowsPlatform;
use mover::platform::{
    decline, get_platform, Backend, HostOs, KeyboardPlatform, MousePlatform, Platform,
    ScreenPlatform,
};
use mover::tween::linear_tween;
use mover::types::MouseButton;

fn declined<T>(message: &str) -> Result<T, MoverError> {
    Err(MoverError::PlatformError(
        PlatformError::UnsupportedOperation(message.to_string()),
    ))
}

#[test]
fn recognized_hosts_get_their_backend() {
    assert_eq!(
        get_platform("linux"),
        Ok(Backend::Linux(LinuxPlatform))
    );
    assert_eq!(
        get_platform("macos"),
        Ok(Backend::MacOS(MacOSPlatform))
    );
    assert_eq!(
        get_platform("windows"),
        Ok(Backend::Windows(WindowsPlatform))
    );
    assert_eq!(get_platform("linux").unwrap().host(), HostOs::Linux);
    assert_eq!(get_platform("macos").unwrap().name(), "macOS");
    assert_eq!(get_platform("windows").unwrap().name(), "Windows");
    assert_eq!(get_platform("linux").unwrap().name(), "Linux");
}

#[test]
fn unrecognized_hosts_are_not_supported() {
    for os in ["freebsd", "", "Linux", "linux ", "plan9", "win", "macOS"] {
        assert_eq!(
            get_platform(os),
            Err(MoverError::PlatformNotSupported(os.to_string()))
        );
        assert_eq!(HostOs::detect(os), None);
    }
}

#[test]
fn host_identifiers_are_detected() {
    assert_eq!(HostOs::detect("windows"), Some(HostOs::Windows));
    assert_eq!(HostOs::detect("macos"), Some(HostOs::MacOS));
    assert_eq!(HostOs::detect("linux"), Some(HostOs::Linux));
}

#[test]
fn backends_are_created_without_failure() {
    assert_eq!(LinuxPlatform::new(), Ok(LinuxPlatform));
    assert_eq!(MacOSPlatform::new(), Ok(MacOSPlatform));
    assert_eq!(WindowsPlatform::new(), Ok(WindowsPlatform));
}

#[test]
fn decline_names_platform_and_operation() {
    assert_eq!(
        decline::<u8>("Linux", "mouse position"),
        declined("Linux mouse position not yet implemented")
    );
}

#[test]
fn linux_backend_declines_every_operation() {
    let p = LinuxPlatform;
    assert_eq!(
        p.get_position(),
        declined("Linux mouse position not yet implemented")
    );
    assert_eq!(p.move_to(1, 2), declined("Linux mouse move not yet implemented"));
    assert_eq!(
        p.move_by(1, 2),
        declined("Linux mouse move by not yet implemented")
    );
    assert_eq!(
        p.move_to_with_tween(1, 2, 1_000_000, linear_tween),
        declined("Linux mouse move with tween not yet implemented")
    );
    assert_eq!(
        p.click(MouseButton::Left),
        declined("Linux mouse click not yet implemented")
    );
    assert_eq!(
        p.click_at(1, 2, MouseButton::Left),
        declined("Linux mouse click at not yet implemented")
    );
    assert_eq!(
        p.double_click(MouseButton::Left),
        declined("Linux double click not yet implemented")
    );
    assert_eq!(
        p.triple_click(MouseButton::Left),
        declined("Linux triple click not yet implemented")
    );
    assert_eq!(
        p.press_button(MouseButton::Left),
        declined("Linux mouse button press not yet implemented")
    );
    assert_eq!(
        p.release_button(MouseButton::Left),
        declined("Linux mouse button release not yet implemented")
    );
    assert_eq!(
        p.drag_to(1, 2, MouseButton::Left),
        declined("Linux mouse drag to not yet implemented")
    );
    assert_eq!(
        p.drag_by(1, 2, MouseButton::Left),
        declined("Linux mouse drag by not yet implemented")
    );
    assert_eq!(
        p.scroll_vertical(1),
        declined("Linux vertical scroll not yet implemented")
    );
    assert_eq!(
        p.scroll_horizontal(1),
        declined("Linux horizontal scroll not yet implemented")
    );
    assert_eq!(p.get_size(), declined("Linux screen size not yet implemented"));
    assert_eq!(
        p.is_on_screen(1, 2),
        declined("Linux on screen check not yet implemented")
    );
    assert_eq!(
        p.capture_screen(),
        declined("Linux screen capture not yet implemented")
    );
    assert_eq!(
        p.capture_region(1, 2, 3, 4),
        declined("Linux region capture not yet implemented")
    );
    assert_eq!(
        p.get_pixel_color(1, 2),
        declined("Linux pixel color not yet implemented")
    );
    assert_eq!(
        p.type_string("x"),
        declined("Linux keyboard type string not yet implemented")
    );
    assert_eq!(
        p.press_key("x"),
        declined("Linux keyboard press key not yet implemented")
    );
    assert_eq!(
        p.release_key("x"),
        declined("Linux keyboard release key not yet implemented")
    );
    assert_eq!(
        p.hold_key("x"),
        declined("Linux keyboard hold key not yet implemented")
    );
    assert_eq!(
        p.press_keys(&["x"]),
        declined("Linux keyboard press keys not yet implemented")
    );
    assert_eq!(
        p.press_hotkey(&["x"]),
        declined("Linux keyboard hotkey not yet implemented")
    );
    assert_eq!(p.name(), "Linux");
    assert!(!p.supports_feature("anything"));
}

#[test]
fn other_backends_decline_under_their_own_name() {
    assert_eq!(
        MacOSPlatform.get_position(),
        declined("macOS mouse position not yet implemented")
    );
    assert_eq!(
        WindowsPlatform.press_hotkey(&["ctrl", "c"]),
        declined("Windows keyboard hotkey not yet implemented")
    );
    assert_eq!(
        MacOSPlatform.get_pixel_color(0, 0),
        declined("macOS pixel color not yet implemented")
    );
    assert_eq!(MacOSPlatform.name(), "macOS");
    assert_eq!(WindowsPlatform.name(), "Windows");
    assert!(!MacOSPlatform.supports_feature("x"));
    assert!(!WindowsPlatform.supports_feature("x"));
}

#[test]
fn selected_backend_forwards_to_its_adapter() {
    let linux = get_platform("linux").unwrap();
    assert_eq!(
        linux.get_position(),
        declined("Linux mouse position not yet implemented")
    );
    assert_eq!(
        linux.type_string("x"),
        declined("Linux keyboard type string not yet implemented")
    );
    let windows = get_platform("windows").unwrap();
    assert_eq!(
        windows.get_size(),
        declined("Windows screen size not yet implemented")
    );
    assert_eq!(
        windows.move_to_with_tween(0, 0, 5, linear_tween),
        declined("Windows mouse move with tween not yet implemented")
    );
    let macos = get_platform("macos").unwrap();
    assert_eq!(
        macos.scroll_vertical(2),
        declined("macOS vertical scroll not yet implemented")
    );
    assert!(!macos.supports_feature("scroll"));
    assert_eq!(macos.host(), HostOs::MacOS);
}
