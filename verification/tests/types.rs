use mover::platform::HostOs;
use mover::types::{Axis, Direction, MouseButton, Point, ScrollDirection, Size};

const BUTTONS: [MouseButton; 9] = [
    MouseButton::Left,
    MouseButton::Middle,
    MouseButton::Right,
    MouseButton::Primary,
    MouseButton::Secondary,
    MouseButton::Button4,
    MouseButton::Button5,
    MouseButton::Button6,
    MouseButton::Button7,
];

#[test]
fn point_holds_its_coordinates() {
    let p = Point::new(3, -4);
    assert_eq!(p, Point { x: 3, y: -4 });
    assert_eq!(Point::from((3, -4)), p);
    let pair: (i32, i32) = p.into();
    assert_eq!(pair, (3, -4));
}

#[test]
fn size_holds_its_dimensions() {
    let s = Size::new(1920, 1080);
    assert_eq!(
        s,
        Size {
            width: 1920,
            height: 1080
        }
    );
    assert_eq!(Size::from((1920, 1080)), s);
    let pair: (i32, i32) = s.into();
    assert_eq!(pair, (1920, 1080));
}

#[test]
fn points_are_on_screen_within_the_bounds() {
    let screen = Size::new(800, 600);
    for (x, y, expected) in [
        (0, 0, true),
        (799, 599, true),
        (800, 0, false),
        (0, 600, false),
        (-1, 0, false),
        (0, -1, false),
        (400, 300, true),
    ] {
        let p = Point::new(x, y);
        assert_eq!(p.is_on_screen(&screen), expected);
        assert_eq!(screen.contains(&p), expected);
    }
    assert!(!Point::new(0, 0).is_on_screen(&Size::new(0, 0)));
    assert!(!Point::new(0, 0).is_on_screen(&Size::new(-5, 10)));
}

#[test]
fn area_is_widened() {
    assert_eq!(Size::new(1920, 1080).area(), 2_073_600);
    assert_eq!(Size::new(0, 7).area(), 0);
    assert_eq!(Size::new(-3, 7).area(), -21);
    assert_eq!(
        Size::new(i32::MAX, i32::MAX).area(),
        4_611_686_014_132_420_609
    );
    assert_eq!(
        Size::new(i32::MIN, i32::MIN).area(),
        4_611_686_018_427_387_904
    );
    assert_eq!(
        Size::new(i32::MIN, i32::MAX).area(),
        -4_611_686_016_279_904_256
    );
}

#[test]
fn points_and_sizes_are_ordered_by_their_pairs() {
    assert!(Point::new(1, 9) < Point::new(2, 0));
    assert!(Point::new(1, 1) < Point::new(1, 2));
    assert!(Point::new(1, 2) > Point::new(1, 1));
    assert!(Point::new(1, 2) <= Point::new(1, 2));
    assert!(Point::new(-1, 5) < Point::new(0, -5));
    assert_eq!(
        Point::new(3, 4).partial_cmp(&Point::new(3, 4)),
        Some(std::cmp::Ordering::Equal)
    );
    assert_eq!(
        Point::new(3, 4).partial_cmp(&Point::new(2, 9)),
        Some(Point::new(3, 4).cmp(&Point::new(2, 9)))
    );
    assert!(Size::new(10, 1) > Size::new(9, 100));
    assert!(Size::new(10, 1) < Size::new(10, 2));
    assert_eq!(
        Size::new(5, 6).partial_cmp(&Size::new(5, 7)),
        Some(Size::new(5, 6).cmp(&Size::new(5, 7)))
    );
    let mut points = vec![Point::new(2, 1), Point::new(1, 5), Point::new(1, -5)];
    points.sort();
    assert_eq!(
        points,
        vec![Point::new(1, -5), Point::new(1, 5), Point::new(2, 1)]
    );
}

#[test]
fn buttons_have_numbers() {
    let numbers: Vec<u8> = BUTTONS.iter().map(|b| b.number()).collect();
    assert_eq!(numbers, vec![1, 2, 3, 1, 3, 4, 5, 6, 7]);
}

#[test]
fn buttons_have_names() {
    let names: Vec<&str> = BUTTONS.iter().map(|b| b.name()).collect();
    assert_eq!(
        names,
        vec![
            "left",
            "middle",
            "right",
            "primary",
            "secondary",
            "button4",
            "button5",
            "button6",
            "button7"
        ]
    );
}

#[test]
fn default_button_is_primary() {
    assert_eq!(MouseButton::default(), MouseButton::Primary);
}

#[test]
fn extended_buttons_are_valid_on_linux_only() {
    for (i, button) in BUTTONS.iter().enumerate() {
        assert!(button.is_valid_for_platform(HostOs::Linux));
        assert_eq!(button.is_valid_for_platform(HostOs::Windows), i < 5);
        assert_eq!(button.is_valid_for_platform(HostOs::MacOS), i < 5);
    }
}

#[test]
fn scroll_directions_have_signs_and_names() {
    assert_eq!(ScrollDirection::Up.value(), 1);
    assert_eq!(ScrollDirection::Right.value(), 1);
    assert_eq!(ScrollDirection::Down.value(), -1);
    assert_eq!(ScrollDirection::Left.value(), -1);
    assert_eq!(ScrollDirection::Up.name(), "up");
    assert_eq!(ScrollDirection::Down.name(), "down");
    assert_eq!(ScrollDirection::Left.name(), "left");
    assert_eq!(ScrollDirection::Right.name(), "right");
}

#[test]
fn directions_and_axes_are_distinct() {
    assert_ne!(Direction::Press, Direction::Release);
    assert_ne!(Direction::Press, Direction::Click);
    assert_ne!(Axis::Horizontal, Axis::Vertical);
}

#[test]
fn points_and_sizes_have_a_text_form() {
    assert_eq!(Point::new(3, -4).display(), "(3, -4)");
    assert_eq!(Point::new(0, 0).display(), "(0, 0)");
    assert_eq!(
        Point::new(i32::MIN, i32::MAX).display(),
        "(-2147483648, 2147483647)"
    );
    assert_eq!(Size::new(1920, 1080).display(), "1920x1080");
    assert_eq!(Size::new(-1, 10).display(), "-1x10");
    assert_eq!(Size::new(100, 7).display(), "100x7");
}
