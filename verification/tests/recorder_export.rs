use mover::error::MoverError;
use mover::types::{MouseButton, Point};
use mover::utils::{ActionRecorder, RecordedAction};

fn refused() -> MoverError {
    MoverError::Other("Failed to parse actions".to_string())
}

fn imported(text: &str) -> Result<Vec<RecordedAction>, MoverError> {
    ActionRecorder::import_json(0, text).map(|recorder| recorder.get_actions().to_vec())
}

fn sample() -> ActionRecorder {
    let mut recorder = ActionRecorder::new(0);
    recorder.record_mouse_move(1, -2, 500_000);
    recorder.record_mouse_click(3, 4, MouseButton::Right);
    recorder.record_mouse_drag(Point::new(5, 6), Point::new(-7, 8), MouseButton::Button4);
    recorder.record_key_press("enter".to_string());
    recorder.record_key_type("say \"hi\"\\\n".to_string());
    recorder.record_screenshot("shots/\u{e9}t\u{e9}.png".to_string());
    recorder.record_wait(-250_000);
    recorder
}

const SAMPLE: &str = r#"[
  {
    "MouseMove": {
      "x": 1,
      "y": -2,
      "duration": 500000
    }
  },
  {
    "MouseClick": {
      "x": 3,
      "y": 4,
      "button": "Right"
    }
  },
  {
    "MouseDrag": {
      "from": {
        "x": 5,
        "y": 6
      },
      "to": {
        "x": -7,
        "y": 8
      },
      "button": "Button4"
    }
  },
  {
    "KeyPress": {
      "key": "enter"
    }
  },
  {
    "KeyType": {
      "text": "say \"hi\"\\\n"
    }
  },
  {
    "Screenshot": {
      "path": "shots/été.png"
    }
  },
  {
    "Wait": {
      "duration": -250000
    }
  }
]"#;

#[test]
fn empty_log_is_an_empty_array() {
    assert_eq!(ActionRecorder::new(0).export_json(), Ok("[]".to_string()));
    assert_eq!(imported("[]"), Ok(Vec::new()));
}

#[test]
fn export_lays_the_log_out() {
    assert_eq!(sample().export_json(), Ok(SAMPLE.to_string()));
}

#[test]
fn export_of_one_action() {
    let mut recorder = ActionRecorder::new(0);
    recorder.record_wait(7);
    assert_eq!(
        recorder.export_json(),
        Ok("[\n  {\n    \"Wait\": {\n      \"duration\": 7\n    }\n  }\n]".to_string())
    );
}

#[test]
fn import_reads_the_layout() {
    assert_eq!(imported(SAMPLE), Ok(sample().get_actions().to_vec()));
}

#[test]
fn import_starts_a_new_recording() {
    let recorder = ActionRecorder::import_json(1_000, SAMPLE).unwrap();
    assert_eq!(recorder.get_total_time(1_500), 500);
    assert_eq!(recorder.get_actions().len(), 7);
}

#[test]
fn export_then_import_gives_the_same_log() {
    let mut recorder = sample();
    recorder.record_key_type(String::new());
    recorder.record_key_type("\u{0}\u{1}\u{1f}\u{20}\u{7f}\t\r\n".to_string());
    recorder.record_key_type("\\\"\\u0041\\\\".to_string());
    recorder.record_key_type("\"]\n]".to_string());
    recorder.record_screenshot("C:\\shots\\\u{212A}\u{1F600}.png".to_string());
    recorder.record_mouse_move(i32::MIN, i32::MAX, i64::MIN);
    recorder.record_mouse_move(0, 0, i64::MAX);
    recorder.record_wait(0);
    for button in [
        MouseButton::Left,
        MouseButton::Middle,
        MouseButton::Right,
        MouseButton::Primary,
        MouseButton::Secondary,
        MouseButton::Button4,
        MouseButton::Button5,
        MouseButton::Button6,
        MouseButton::Button7,
    ] {
        recorder.record_mouse_click(10, 20, button);
        recorder.record_mouse_drag(
            Point::new(i32::MIN, 0),
            Point::new(0, i32::MAX),
            button,
        );
    }
    let text = recorder.export_json().unwrap();
    assert_eq!(imported(&text), Ok(recorder.get_actions().to_vec()));
    let again = ActionRecorder::import_json(0, &text).unwrap();
    assert_eq!(again.export_json(), Ok(text));
}

#[test]
fn control_characters_are_escaped() {
    let mut recorder = ActionRecorder::new(0);
    recorder.record_key_press("a\tb\u{1f}\u{8}\u{c}\r\n\u{0}\u{b}\u{7f}".to_string());
    assert_eq!(
        recorder.export_json(),
        Ok(
            "[\n  {\n    \"KeyPress\": {\n      \"key\": \"a\\tb\\u001f\\b\\f\\r\\n\\u0000\\u000b\u{7f}\"\n    }\n  }\n]"
                .to_string()
        )
    );
}

#[test]
fn integers_are_written_in_decimal() {
    let mut recorder = ActionRecorder::new(0);
    recorder.record_mouse_move(i32::MIN, i32::MAX, i64::MIN);
    let text = recorder.export_json().unwrap();
    assert!(text.contains("\"x\": -2147483648,"));
    assert!(text.contains("\"y\": 2147483647,"));
    assert!(text.contains("\"duration\": -9223372036854775808\n"));
    let mut recorder = ActionRecorder::new(0);
    recorder.record_wait(i64::MAX);
    assert!(recorder
        .export_json()
        .unwrap()
        .contains("\"duration\": 9223372036854775807\n"));
    let mut recorder = ActionRecorder::new(0);
    recorder.record_wait(1_000_000);
    assert!(recorder
        .export_json()
        .unwrap()
        .contains("\"duration\": 1000000\n"));
}

fn wait_log(duration: &str) -> String {
    format!(
        "[\n  {{\n    \"Wait\": {{\n      \"duration\": {}\n    }}\n  }}\n]",
        duration
    )
}

fn click_log(x: &str, button: &str) -> String {
    format!(
        "[\n  {{\n    \"MouseClick\": {{\n      \"x\": {},\n      \"y\": 4,\n      \"button\": {}\n    }}\n  }}\n]",
        x, button
    )
}

#[test]
fn import_checks_integers() {
    assert_eq!(
        imported(&wait_log("9223372036854775807")),
        Ok(vec![RecordedAction::Wait {
            duration: i64::MAX
        }])
    );
    assert_eq!(
        imported(&wait_log("-9223372036854775808")),
        Ok(vec![RecordedAction::Wait {
            duration: i64::MIN
        }])
    );
    assert_eq!(imported(&wait_log("9223372036854775808")), Err(refused()));
    assert_eq!(imported(&wait_log("-9223372036854775809")), Err(refused()));
    assert_eq!(
        imported(&wait_log("99999999999999999999999999999999999999999999")),
        Err(refused())
    );
    assert_eq!(imported(&wait_log("")), Err(refused()));
    assert_eq!(imported(&wait_log("-")), Err(refused()));
    assert_eq!(imported(&wait_log("+5")), Err(refused()));
    assert_eq!(imported(&wait_log("1.5")), Err(refused()));
    assert_eq!(imported(&wait_log("\"5\"")), Err(refused()));
    assert_eq!(
        imported(&wait_log("007")),
        Ok(vec![RecordedAction::Wait { duration: 7 }])
    );
}

#[test]
fn import_checks_coordinates_and_buttons() {
    assert_eq!(
        imported(&click_log("3", "\"Middle\"")),
        Ok(vec![RecordedAction::MouseClick {
            x: 3,
            y: 4,
            button: MouseButton::Middle
        }])
    );
    assert_eq!(
        imported(&click_log("2147483647", "\"Left\"")),
        Ok(vec![RecordedAction::MouseClick {
            x: i32::MAX,
            y: 4,
            button: MouseButton::Left
        }])
    );
    assert_eq!(
        imported(&click_log("2147483648", "\"Left\"")),
        Err(refused())
    );
    assert_eq!(
        imported(&click_log("-2147483649", "\"Left\"")),
        Err(refused())
    );
    assert_eq!(imported(&click_log("3", "\"left\"")), Err(refused()));
    assert_eq!(imported(&click_log("3", "\"Button8\"")), Err(refused()));
    assert_eq!(imported(&click_log("3", "\"\"")), Err(refused()));
    assert_eq!(imported(&click_log("3", "1")), Err(refused()));
}

#[test]
fn import_refuses_other_texts() {
    let one = wait_log("7");
    assert!(imported(&one).is_ok());
    let cases = [
        String::new(),
        "[".to_string(),
        "]".to_string(),
        "[ ]".to_string(),
        "[]\n".to_string(),
        " []".to_string(),
        "{}".to_string(),
        "null".to_string(),
        "[\n]".to_string(),
        format!("{}\n", one),
        format!("{} ", one),
        one[..one.len() - 1].to_string(),
        one[..one.len() - 2].to_string(),
        one.replace("Wait", "Sleep"),
        one.replace("Wait", "wait"),
        one.replace("Wait", "KeyPress"),
        one.replace("duration", "time"),
        one.replace("  {", "{"),
        one.replace("\n", ""),
        one.replace("\n", "\r\n"),
        one.replace("\n]", ",\n]"),
        one.replace("\n]", ",\n  {\n    \"Wait\": {\n      \"duration\": 7\n    }\n  }"),
        one.replace("[", "[["),
    ];
    for text in cases {
        assert_eq!(imported(&text), Err(refused()), "{:?}", text);
    }
}

#[test]
fn import_checks_quoted_texts() {
    let key_log = |key: &str| {
        format!(
            "[\n  {{\n    \"KeyPress\": {{\n      \"key\": {}\n    }}\n  }}\n]",
            key
        )
    };
    let key = |text: &str| {
        Ok(vec![RecordedAction::KeyPress {
            key: text.to_string(),
        }])
    };
    assert_eq!(imported(&key_log("\"a\"")), key("a"));
    assert_eq!(imported(&key_log("\"\"")), key(""));
    assert_eq!(imported(&key_log("\"\\\"\"")), key("\""));
    assert_eq!(imported(&key_log("\"\\\\\"")), key("\\"));
    assert_eq!(imported(&key_log("\"\\u000a\"")), key("\n"));
    assert_eq!(imported(&key_log("\"\\u0000\"")), key("\u{0}"));
    assert_eq!(imported(&key_log("\"\\u001f\"")), key("\u{1f}"));
    assert_eq!(imported(&key_log("\"a")), Err(refused()));
    assert_eq!(imported(&key_log("a\"")), Err(refused()));
    assert_eq!(imported(&key_log("\"a\nb\"")), Err(refused()));
    assert_eq!(imported(&key_log("\"\\n\"")), key("\n"));
    assert_eq!(imported(&key_log("\"\\t\"")), key("\t"));
    assert_eq!(imported(&key_log("\"\\r\"")), key("\r"));
    assert_eq!(imported(&key_log("\"\\b\"")), key("\u{8}"));
    assert_eq!(imported(&key_log("\"\\f\"")), key("\u{c}"));
    assert_eq!(imported(&key_log("\"\\/\"")), Err(refused()));
    assert_eq!(imported(&key_log("\"\\a\"")), Err(refused()));
    assert_eq!(imported(&key_log("\"a\tb\"")), Err(refused()));
    assert_eq!(imported(&key_log("\"\\u0020\"")), Err(refused()));
    assert_eq!(imported(&key_log("\"\\u001F\"")), Err(refused()));
    assert_eq!(imported(&key_log("\"\\u00\"")), Err(refused()));
    assert_eq!(imported(&key_log("\"\\u0100\"")), Err(refused()));
    assert_eq!(imported(&key_log("\"\\\"")), Err(refused()));
    assert_eq!(imported(&key_log("7")), Err(refused()));
}

#[test]
fn import_reads_several_actions_in_order() {
    let text = "[\n  {\n    \"Wait\": {\n      \"duration\": 1\n    }\n  },\n  {\n    \"Wait\": {\n      \"duration\": 2\n    }\n  },\n  {\n    \"KeyType\": {\n      \"text\": \",\"\n    }\n  }\n]";
    assert_eq!(
        imported(text),
        Ok(vec![
            RecordedAction::Wait { duration: 1 },
            RecordedAction::Wait { duration: 2 },
            RecordedAction::KeyType {
                text: ",".to_string()
            },
        ])
    );
}
