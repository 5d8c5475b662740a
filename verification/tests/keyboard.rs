use mover::error::{MoverError, PlatformError};
use mover::keyboard::{
    convert_key, key_from_lowercase, Key, Keyboard, KeyboardAction, KeyboardCommand, KeyboardPlan,
    KeyboardStep, KEY_PAUSE,
};
use mover::types::Direction;

fn unsupported(message: &str) -> MoverError {
    MoverError::PlatformError(PlatformError::UnsupportedOperation(message.to_string()))
}

fn key_step(key: Key, direction: Direction, on_failure: &str) -> KeyboardStep {
    KeyboardStep::Act(KeyboardCommand {
        action: KeyboardAction::Key { key, direction },
        on_failure: on_failure.to_string(),
    })
}

fn keyboard() -> Keyboard<()> {
    Keyboard::new(Ok(())).unwrap()
}

#[test]
fn test_keyboard_creation() {
    let keyboard: Result<Keyboard<()>, MoverError> = Keyboard::new(Ok(()));
    assert!(keyboard.is_ok());
}

#[test]
fn test_convert_key_basic() {
    assert!(convert_key("a").is_ok());
    assert!(convert_key("1").is_ok());
    assert!(convert_key("!").is_ok());
}

#[test]
fn test_convert_key_special() {
    assert!(convert_key("enter").is_ok());
    assert!(convert_key("space").is_ok());
    assert!(convert_key("tab").is_ok());
    assert!(convert_key("escape").is_ok());
}

#[test]
fn test_convert_key_function() {
    assert!(convert_key("f1").is_ok());
    assert!(convert_key("f12").is_ok());
}

#[test]
fn test_convert_key_modifier() {
    assert!(convert_key("ctrl").is_ok());
    assert!(convert_key("shift").is_ok());
    assert!(convert_key("alt").is_ok());
    assert!(convert_key("meta").is_ok());
}

#[test]
fn test_convert_key_navigation() {
    assert!(convert_key("up").is_ok());
    assert!(convert_key("down").is_ok());
    assert!(convert_key("left").is_ok());
    assert!(convert_key("right").is_ok());
}

#[test]
fn test_convert_key_case_insensitive() {
    assert!(convert_key("ENTER").is_ok());
    assert!(convert_key("Enter").is_ok());
    assert!(convert_key("enter").is_ok());
}

#[test]
fn test_convert_key_unsupported() {
    assert!(convert_key("unsupported_key").is_err());
    assert!(convert_key("").is_err());
}

#[test]
fn keyboard_creation_failure_is_wrapped() {
    let keyboard: Result<Keyboard<()>, MoverError> = Keyboard::new(Err("no display".to_string()));
    assert_eq!(
        keyboard.err(),
        Some(unsupported("Failed to create Enigo instance: no display"))
    );
}

#[test]
fn convert_key_ignores_case() {
    assert_eq!(convert_key("ENTER"), Ok(Key::Return));
    assert_eq!(convert_key("enter"), Ok(Key::Return));
    assert_eq!(convert_key("Enter"), Ok(Key::Return));
    assert_eq!(convert_key("A"), Ok(Key::Unicode('a')));
    assert_eq!(convert_key("F12"), Ok(Key::F12));
    assert_eq!(convert_key("PgDn"), Ok(Key::PageDown));
}

#[test]
fn convert_key_lowers_before_lookup() {
    // The Kelvin sign is a letter whose lower-case form is the ASCII `k`.
    assert_eq!(convert_key("\u{212A}"), Ok(Key::Unicode('k')));
    // Without lowering, an upper-case name is outside the table.
    assert_eq!(
        key_from_lowercase("ENTER", "ENTER"),
        Err(unsupported("Unsupported key: ENTER"))
    );
}

#[test]
fn convert_key_refuses_unknown_names() {
    assert_eq!(
        convert_key("foobar"),
        Err(unsupported("Unsupported key: foobar"))
    );
    assert_eq!(
        convert_key("FooBar"),
        Err(unsupported("Unsupported key: FooBar"))
    );
    assert_eq!(convert_key(""), Err(unsupported("Unsupported key: ")));
    assert_eq!(convert_key(" "), Err(unsupported("Unsupported key:  ")));
    assert_eq!(
        convert_key("\u{e9}"),
        Err(unsupported("Unsupported key: \u{e9}"))
    );
    assert_eq!(convert_key("<>"), Err(unsupported("Unsupported key: <>")));
    assert_eq!(convert_key("f13"), Err(unsupported("Unsupported key: f13")));
    assert_eq!(convert_key("ab"), Err(unsupported("Unsupported key: ab")));
}

#[test]
fn convert_key_knows_the_whole_table() {
    for c in "abcdefghijklmnopqrstuvwxyz0123456789".chars() {
        assert_eq!(convert_key(&c.to_string()), Ok(Key::Unicode(c)));
    }
    for c in "!@#$%^&*()-_=+[]{}\\|;:'\",./?`~<>".chars() {
        assert_eq!(convert_key(&c.to_string()), Ok(Key::Unicode(c)));
    }
    let named = [
        ("enter", Key::Return),
        ("return", Key::Return),
        ("space", Key::Space),
        ("tab", Key::Tab),
        ("escape", Key::Escape),
        ("esc", Key::Escape),
        ("backspace", Key::Backspace),
        ("delete", Key::Delete),
        ("del", Key::Delete),
        ("home", Key::Home),
        ("end", Key::End),
        ("pageup", Key::PageUp),
        ("pgup", Key::PageUp),
        ("pagedown", Key::PageDown),
        ("pgdn", Key::PageDown),
        ("up", Key::UpArrow),
        ("down", Key::DownArrow),
        ("left", Key::LeftArrow),
        ("right", Key::RightArrow),
        ("f1", Key::F1),
        ("f2", Key::F2),
        ("f3", Key::F3),
        ("f4", Key::F4),
        ("f5", Key::F5),
        ("f6", Key::F6),
        ("f7", Key::F7),
        ("f8", Key::F8),
        ("f9", Key::F9),
        ("f10", Key::F10),
        ("f11", Key::F11),
        ("f12", Key::F12),
        ("ctrl", Key::Control),
        ("control", Key::Control),
        ("alt", Key::Alt),
        ("shift", Key::Shift),
        ("meta", Key::Meta),
        ("win", Key::Meta),
        ("command", Key::Meta),
    ];
    for (name, key) in named {
        assert_eq!(convert_key(name), Ok(key));
        assert_eq!(convert_key(&name.to_uppercase()), Ok(key));
    }
}

#[test]
fn every_ascii_punctuation_mark_names_its_key() {
    let mut marks = 0;
    for code in 0x21u8..=0x7e {
        let c = char::from(code);
        if !c.is_ascii_alphanumeric() {
            assert_eq!(convert_key(&c.to_string()), Ok(Key::Unicode(c)));
            marks += 1;
        }
    }
    assert_eq!(marks, 32);
    assert_eq!(convert_key("<"), Ok(Key::Unicode('<')));
    assert_eq!(convert_key(">"), Ok(Key::Unicode('>')));
}

#[test]
fn type_string_is_one_text_action() {
    let plan = keyboard().type_string("Hello");
    assert_eq!(
        plan,
        KeyboardPlan {
            steps: vec![KeyboardStep::Act(KeyboardCommand {
                action: KeyboardAction::Text("Hello".to_string()),
                on_failure: "Failed to type text".to_string(),
            })],
            outcome: Ok(()),
        }
    );
}

#[test]
fn type_string_with_interval_types_each_character() {
    let plan = keyboard().type_string_with_interval("hi", 500_000);
    assert_eq!(
        plan.steps,
        vec![
            key_step(
                Key::Unicode('h'),
                Direction::Click,
                "Failed to type character 'h'"
            ),
            KeyboardStep::Pause(500_000),
            key_step(
                Key::Unicode('i'),
                Direction::Click,
                "Failed to type character 'i'"
            ),
            KeyboardStep::Pause(500_000),
        ]
    );
    assert_eq!(plan.outcome, Ok(()));
}

#[test]
fn type_string_with_interval_skips_pauses_that_are_not_positive() {
    let plan = keyboard().type_string_with_interval("A\u{e9}", 0);
    assert_eq!(
        plan.steps,
        vec![
            key_step(
                Key::Unicode('A'),
                Direction::Click,
                "Failed to type character 'A'"
            ),
            key_step(
                Key::Unicode('\u{e9}'),
                Direction::Click,
                "Failed to type character '\u{e9}'"
            ),
        ]
    );
    assert!(keyboard()
        .type_string_with_interval("", 10)
        .steps
        .is_empty());
    assert_eq!(
        keyboard().type_string_with_interval("x", -5).steps.len(),
        1
    );
}

#[test]
fn single_key_plans() {
    assert_eq!(
        keyboard().press_key("Shift").steps,
        vec![key_step(Key::Shift, Direction::Press, "Failed to press key")]
    );
    assert_eq!(
        keyboard().release_key("shift").steps,
        vec![key_step(
            Key::Shift,
            Direction::Release,
            "Failed to release key"
        )]
    );
    assert_eq!(
        keyboard().tap_key("enter").steps,
        vec![key_step(Key::Return, Direction::Click, "Failed to tap key")]
    );
    assert_eq!(keyboard().tap_key("enter").outcome, Ok(()));
}

#[test]
fn single_key_plans_refuse_unknown_names() {
    let plan = keyboard().press_key("bogus");
    assert!(plan.steps.is_empty());
    assert_eq!(plan.outcome, Err(unsupported("Unsupported key: bogus")));
    assert_eq!(
        keyboard().release_key("Nope").outcome,
        Err(unsupported("Unsupported key: Nope"))
    );
    assert_eq!(
        keyboard().tap_key("").outcome,
        Err(unsupported("Unsupported key: "))
    );
}

#[test]
fn press_keys_clicks_in_order_with_pauses() {
    let plan = keyboard().press_keys(&["tab", "Space"]);
    assert_eq!(
        plan.steps,
        vec![
            key_step(Key::Tab, Direction::Click, "Failed to press key 'tab'"),
            KeyboardStep::Pause(KEY_PAUSE),
            key_step(Key::Space, Direction::Click, "Failed to press key 'Space'"),
            KeyboardStep::Pause(KEY_PAUSE),
        ]
    );
    assert_eq!(plan.outcome, Ok(()));
    assert_eq!(KEY_PAUSE, 50_000);
}

#[test]
fn press_keys_stops_at_the_first_unknown_name() {
    let plan = keyboard().press_keys(&["a", "bogus", "b", "worse"]);
    assert_eq!(
        plan.steps,
        vec![
            key_step(Key::Unicode('a'), Direction::Click, "Failed to press key 'a'"),
            KeyboardStep::Pause(KEY_PAUSE),
        ]
    );
    assert_eq!(plan.outcome, Err(unsupported("Unsupported key: bogus")));
    let empty: [&str; 0] = [];
    let plan = keyboard().press_keys(&empty);
    assert!(plan.steps.is_empty());
    assert_eq!(plan.outcome, Ok(()));
}

#[test]
fn press_hotkey_presses_then_releases_in_reverse() {
    let plan = keyboard().press_hotkey(&["ctrl", "Shift", "a"]);
    assert_eq!(
        plan.steps,
        vec![
            key_step(Key::Control, Direction::Press, "Failed to press key 'ctrl'"),
            key_step(Key::Shift, Direction::Press, "Failed to press key 'Shift'"),
            key_step(Key::Unicode('a'), Direction::Press, "Failed to press key 'a'"),
            KeyboardStep::Pause(KEY_PAUSE),
            key_step(
                Key::Unicode('a'),
                Direction::Release,
                "Failed to release key 'a'"
            ),
            key_step(
                Key::Shift,
                Direction::Release,
                "Failed to release key 'Shift'"
            ),
            key_step(
                Key::Control,
                Direction::Release,
                "Failed to release key 'ctrl'"
            ),
        ]
    );
    assert_eq!(plan.outcome, Ok(()));
}

#[test]
fn press_hotkey_stops_at_the_first_unknown_name() {
    let plan = keyboard().press_hotkey(&["ctrl", "bogus", "c"]);
    assert_eq!(
        plan.steps,
        vec![key_step(
            Key::Control,
            Direction::Press,
            "Failed to press key 'ctrl'"
        )]
    );
    assert_eq!(plan.outcome, Err(unsupported("Unsupported key: bogus")));
}

#[test]
fn press_hotkey_without_keys_only_pauses() {
    let empty: [&str; 0] = [];
    let plan = keyboard().press_hotkey(&empty);
    assert_eq!(plan.steps, vec![KeyboardStep::Pause(KEY_PAUSE)]);
    assert_eq!(plan.outcome, Ok(()));
}

#[test]
fn press_key_multiple_repeats_the_click() {
    let plan = keyboard().press_key_multiple("Right", 3, 100_000);
    let click = key_step(Key::RightArrow, Direction::Click, "Failed to press key");
    assert_eq!(
        plan.steps,
        vec![
            click.clone(),
            KeyboardStep::Pause(100_000),
            click.clone(),
            KeyboardStep::Pause(100_000),
            click.clone(),
            KeyboardStep::Pause(100_000),
        ]
    );
    assert_eq!(
        keyboard().press_key_multiple("right", 2, 0).steps,
        vec![click.clone(), click]
    );
    assert!(keyboard().press_key_multiple("right", 0, 5).steps.is_empty());
    let refused = keyboard().press_key_multiple("wrong", 3, 5);
    assert!(refused.steps.is_empty());
    assert_eq!(refused.outcome, Err(unsupported("Unsupported key: wrong")));
}

#[test]
fn keyboard_sleep_pauses_only_for_positive_durations() {
    assert_eq!(
        keyboard().sleep(1_500_000).steps,
        vec![KeyboardStep::Pause(1_500_000)]
    );
    assert!(keyboard().sleep(0).steps.is_empty());
    assert!(keyboard().sleep(-1).steps.is_empty());
}

#[test]
fn keyboard_failures_are_wrapped() {
    let plan = keyboard().press_keys(&["tab"]);
    match &plan.steps[0] {
        KeyboardStep::Act(command) => assert_eq!(
            command.failure("connection lost"),
            unsupported("Failed to press key 'tab': connection lost")
        ),
        KeyboardStep::Pause(_) => panic!("the first step is an action"),
    }
}
