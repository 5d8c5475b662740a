//! The layout of the exported action log.
//!
//! The log is a JSON array. Each action is an object with one member, named
//! after the kind of the action, whose value is an object with the action's
//! fields; a button is written by its name. The array is laid out with two
//! spaces of indentation, one member on a line:
//!
//! ```text
//! [
//!   {
//!     "MouseClick": {
//!       "x": 3,
//!       "y": 4,
//!       "button": "Right"
//!     }
//!   },
//!   {
//!     "Wait": {
//!       "duration": 250000
//!     }
//!   }
//! ]
//! ```
//!
//! An empty log is written as `[]`.

use vstd::prelude::*;
use vstd::string::*;

use crate::codec::{
    fields_view, fits, is_digit, lemma_parse_rendered, parse, parts_view, read_layout, render,
    to_chars, well_formed, write_layout, Field, Part, Slot, Value,
};
use crate::text::{push_char, text_eq};
use crate::types::{MouseButton, Point};
use crate::utils::{actions_view, RecordedAction, RecordedActionView};

verus! {

/// The layout that begins with fixed text.
pub open spec fn then_lit(l: Seq<char>, rest: Seq<Slot>) -> Seq<Slot> {
    seq![Slot::Lit(l)] + rest
}

/// The layout that begins with the place of an integer.
pub open spec fn then_int(rest: Seq<Slot>) -> Seq<Slot> {
    seq![Slot::Int] + rest
}

/// The layout that begins with the place of a quoted text.
pub open spec fn then_text(rest: Seq<Slot>) -> Seq<Slot> {
    seq![Slot::Text] + rest
}

/// The values that begin with an integer.
pub open spec fn int_then(v: i64, rest: Seq<Value>) -> Seq<Value> {
    seq![Value::Int(v)] + rest
}

/// The values that begin with a text.
pub open spec fn text_then(t: Seq<char>, rest: Seq<Value>) -> Seq<Value> {
    seq![Value::Text(t)] + rest
}

/// The end of every action's layout: the two objects are closed.
pub open spec fn closing() -> Seq<Slot> {
    then_lit("\n    }\n  }"@, Seq::empty())
}

/// The layout of the start of an action, up to the name of its kind.
pub open spec fn opening() -> Seq<Slot> {
    then_lit("\n  {\n    "@, then_text(Seq::empty()))
}

/// The name of a button.
pub open spec fn button_name(button: MouseButton) -> Seq<char> {
    match button {
        MouseButton::Left => "Left"@,
        MouseButton::Middle => "Middle"@,
        MouseButton::Right => "Right"@,
        MouseButton::Primary => "Primary"@,
        MouseButton::Secondary => "Secondary"@,
        MouseButton::Button4 => "Button4"@,
        MouseButton::Button5 => "Button5"@,
        MouseButton::Button6 => "Button6"@,
        MouseButton::Button7 => "Button7"@,
    }
}

/// The button of a name, if the name is one.
pub open spec fn button_named(name: Seq<char>) -> Option<MouseButton> {
    if name == "Left"@ {
        Some(MouseButton::Left)
    } else if name == "Middle"@ {
        Some(MouseButton::Middle)
    } else if name == "Right"@ {
        Some(MouseButton::Right)
    } else if name == "Primary"@ {
        Some(MouseButton::Primary)
    } else if name == "Secondary"@ {
        Some(MouseButton::Secondary)
    } else if name == "Button4"@ {
        Some(MouseButton::Button4)
    } else if name == "Button5"@ {
        Some(MouseButton::Button5)
    } else if name == "Button6"@ {
        Some(MouseButton::Button6)
    } else if name == "Button7"@ {
        Some(MouseButton::Button7)
    } else {
        None
    }
}

/// The name of the kind of an action.
pub open spec fn kind_name(action: RecordedActionView) -> Seq<char> {
    match action {
        RecordedActionView::MouseMove { .. } => "MouseMove"@,
        RecordedActionView::MouseClick { .. } => "MouseClick"@,
        RecordedActionView::MouseDrag { .. } => "MouseDrag"@,
        RecordedActionView::KeyPress { .. } => "KeyPress"@,
        RecordedActionView::KeyType { .. } => "KeyType"@,
        RecordedActionView::Screenshot { .. } => "Screenshot"@,
        RecordedActionView::Wait { .. } => "Wait"@,
    }
}

/// The layout of a pointer move after the name of its kind.
pub open spec fn mouse_move_layout() -> Seq<Slot> {
    then_lit(
        ": {\n      \"x\": "@,
        then_int(
            then_lit(
                ",\n      \"y\": "@,
                then_int(then_lit(",\n      \"duration\": "@, then_int(closing()))),
            ),
        ),
    )
}

/// The layout of a click after the name of its kind.
pub open spec fn mouse_click_layout() -> Seq<Slot> {
    then_lit(
        ": {\n      \"x\": "@,
        then_int(
            then_lit(
                ",\n      \"y\": "@,
                then_int(then_lit(",\n      \"button\": "@, then_text(closing()))),
            ),
        ),
    )
}

/// The layout of a drag after the name of its kind.
pub open spec fn mouse_drag_layout() -> Seq<Slot> {
    then_lit(
        ": {\n      \"from\": {\n        \"x\": "@,
        then_int(
            then_lit(
                ",\n        \"y\": "@,
                then_int(
                    then_lit(
                        "\n      },\n      \"to\": {\n        \"x\": "@,
                        then_int(
                            then_lit(
                                ",\n        \"y\": "@,
                                then_int(
                                    then_lit(
                                        "\n      },\n      \"button\": "@,
                                        then_text(closing()),
                                    ),
                                ),
                            ),
                        ),
                    ),
                ),
            ),
        ),
    )
}

/// The layout of a key press after the name of its kind.
pub open spec fn key_press_layout() -> Seq<Slot> {
    then_lit(": {\n      \"key\": "@, then_text(closing()))
}

/// The layout of a typed text after the name of its kind.
pub open spec fn key_type_layout() -> Seq<Slot> {
    then_lit(": {\n      \"text\": "@, then_text(closing()))
}

/// The layout of a screenshot after the name of its kind.
pub open spec fn screenshot_layout() -> Seq<Slot> {
    then_lit(": {\n      \"path\": "@, then_text(closing()))
}

/// The layout of a wait after the name of its kind.
pub open spec fn wait_layout() -> Seq<Slot> {
    then_lit(": {\n      \"duration\": "@, then_int(closing()))
}

/// The layout of an action of the named kind after the name, if the name is
/// that of a kind.
pub open spec fn kind_layout(kind: Seq<char>) -> Option<Seq<Slot>> {
    if kind == "MouseMove"@ {
        Some(mouse_move_layout())
    } else if kind == "MouseClick"@ {
        Some(mouse_click_layout())
    } else if kind == "MouseDrag"@ {
        Some(mouse_drag_layout())
    } else if kind == "KeyPress"@ {
        Some(key_press_layout())
    } else if kind == "KeyType"@ {
        Some(key_type_layout())
    } else if kind == "Screenshot"@ {
        Some(screenshot_layout())
    } else if kind == "Wait"@ {
        Some(wait_layout())
    } else {
        None
    }
}

/// The values of an action's fields, in the order of its layout.
pub open spec fn field_values(action: RecordedActionView) -> Seq<Value> {
    match action {
        RecordedActionView::MouseMove { x, y, duration } => int_then(
            x as i64,
            int_then(y as i64, int_then(duration, Seq::empty())),
        ),
        RecordedActionView::MouseClick { x, y, button } => int_then(
            x as i64,
            int_then(y as i64, text_then(button_name(button), Seq::empty())),
        ),
        RecordedActionView::MouseDrag { from, to, button } => int_then(
            from.x as i64,
            int_then(
                from.y as i64,
                int_then(
                    to.x as i64,
                    int_then(to.y as i64, text_then(button_name(button), Seq::empty())),
                ),
            ),
        ),
        RecordedActionView::KeyPress { key } => text_then(key, Seq::empty()),
        RecordedActionView::KeyType { text } => text_then(text, Seq::empty()),
        RecordedActionView::Screenshot { path } => text_then(path, Seq::empty()),
        RecordedActionView::Wait { duration } => int_then(duration, Seq::empty()),
    }
}

/// Whether the value is an integer that a coordinate can hold.
pub open spec fn is_coordinate(v: Value) -> bool {
    v matches Value::Int(i) && i32::MIN <= i <= i32::MAX
}

/// Whether the value is the name of a button.
pub open spec fn is_button(v: Value) -> bool {
    v matches Value::Text(name) && button_named(name) is Some
}

/// The action of the named kind with the given field values, if there is
/// one: each coordinate must fit and each button must have a known name.
pub open spec fn action_of(kind: Seq<char>, values: Seq<Value>) -> Option<RecordedActionView> {
    if kind == "MouseMove"@ {
        if values.len() == 3 && is_coordinate(values[0]) && is_coordinate(values[1])
            && values[2] is Int {
            Some(
                RecordedActionView::MouseMove {
                    x: values[0]->Int_0 as i32,
                    y: values[1]->Int_0 as i32,
                    duration: values[2]->Int_0,
                },
            )
        } else {
            None
        }
    } else if kind == "MouseClick"@ {
        if values.len() == 3 && is_coordinate(values[0]) && is_coordinate(values[1]) && is_button(
            values[2],
        ) {
            Some(
                RecordedActionView::MouseClick {
                    x: values[0]->Int_0 as i32,
                    y: values[1]->Int_0 as i32,
                    button: button_named(values[2]->Text_0)->0,
                },
            )
        } else {
            None
        }
    } else if kind == "MouseDrag"@ {
        if values.len() == 5 && is_coordinate(values[0]) && is_coordinate(values[1])
            && is_coordinate(values[2]) && is_coordinate(values[3]) && is_button(values[4]) {
            Some(
                RecordedActionView::MouseDrag {
                    from: Point { x: values[0]->Int_0 as i32, y: values[1]->Int_0 as i32 },
                    to: Point { x: values[2]->Int_0 as i32, y: values[3]->Int_0 as i32 },
                    button: button_named(values[4]->Text_0)->0,
                },
            )
        } else {
            None
        }
    } else if kind == "KeyPress"@ {
        if values.len() == 1 && values[0] is Text {
            Some(RecordedActionView::KeyPress { key: values[0]->Text_0 })
        } else {
            None
        }
    } else if kind == "KeyType"@ {
        if values.len() == 1 && values[0] is Text {
            Some(RecordedActionView::KeyType { text: values[0]->Text_0 })
        } else {
            None
        }
    } else if kind == "Screenshot"@ {
        if values.len() == 1 && values[0] is Text {
            Some(RecordedActionView::Screenshot { path: values[0]->Text_0 })
        } else {
            None
        }
    } else if kind == "Wait"@ {
        if values.len() == 1 && values[0] is Int {
            Some(RecordedActionView::Wait { duration: values[0]->Int_0 })
        } else {
            None
        }
    } else {
        None
    }
}

/// The text of one action.
#[verifier::opaque]
pub open spec fn render_action(action: RecordedActionView) -> Seq<char> {
    render(opening(), text_then(kind_name(action), Seq::empty())) + render(
        kind_layout(kind_name(action))->0,
        field_values(action),
    )
}

/// Reads one action from the start of a text. Yields the action and the
/// number of characters read.
#[verifier::opaque]
pub open spec fn parse_action(s: Seq<char>) -> Option<(RecordedActionView, nat)> {
    match parse(opening(), s) {
        Some((head, n)) => if n <= s.len() && head.len() == 1 && head[0] is Text {
            match kind_layout(head[0]->Text_0) {
                Some(layout) => match parse(layout, s.skip(n as int)) {
                    Some((values, m)) => match action_of(head[0]->Text_0, values) {
                        Some(action) => Some((action, n + m)),
                        None => None,
                    },
                    None => None,
                },
                None => None,
            }
        } else {
            None
        },
        None => None,
    }
}

/// The text of one or more actions, with a comma between two of them.
pub open spec fn render_actions(actions: Seq<RecordedActionView>) -> Seq<char>
    decreases actions.len(),
{
    if actions.len() == 0 {
        Seq::empty()
    } else if actions.len() == 1 {
        render_action(actions[0])
    } else {
        render_action(actions[0]) + seq![','] + render_actions(actions.skip(1))
    }
}

/// The text of a log: `[]` for an empty log, else the actions between an
/// opening bracket and a closing bracket on a line of its own.
pub open spec fn spec_export(actions: Seq<RecordedActionView>) -> Seq<char> {
    if actions.len() == 0 {
        seq!['[', ']']
    } else {
        seq!['['] + render_actions(actions) + seq!['\n', ']']
    }
}

/// Reads one or more actions and the closing bracket, which must end the
/// text.
pub open spec fn parse_actions(s: Seq<char>) -> Option<Seq<RecordedActionView>>
    decreases s.len(),
{
    match parse_action(s) {
        Some((action, n)) => if 0 < n <= s.len() {
            let t = s.skip(n as int);
            if t.len() > 0 && t[0] == ',' {
                match parse_actions(t.skip(1)) {
                    Some(rest) => Some(seq![action] + rest),
                    None => None,
                }
            } else if t == seq!['\n', ']'] {
                Some(seq![action])
            } else {
                None
            }
        } else {
            None
        },
        None => None,
    }
}

/// Reads a log. Yields its actions if the text is that of a log, and
/// nothing otherwise.
pub open spec fn spec_import(s: Seq<char>) -> Option<Seq<RecordedActionView>> {
    if s == seq!['[', ']'] {
        Some(Seq::empty())
    } else if s.len() > 0 && s[0] == '[' {
        parse_actions(s.skip(1))
    } else {
        None
    }
}

/// Fixed text at the start of a layout takes no value.
proof fn lemma_then_lit(l: Seq<char>, rest: Seq<Slot>, values: Seq<Value>)
    ensures
        fits(then_lit(l, rest), values) == fits(rest, values),
        well_formed(then_lit(l, rest)) == well_formed(rest),
{
    assert(then_lit(l, rest).skip(1) =~= rest);
}

/// The place of an integer at the start of a layout takes the first value.
proof fn lemma_then_int(l: Seq<char>, rest: Seq<Slot>, v: i64, values: Seq<Value>)
    ensures
        fits(then_int(then_lit(l, rest)), int_then(v, values)) == fits(rest, values),
        well_formed(then_int(then_lit(l, rest))) == (well_formed(rest) && l.len() > 0
            && !is_digit(l[0])),
{
    let layout = then_int(then_lit(l, rest));
    assert(layout.skip(1) =~= then_lit(l, rest));
    assert(int_then(v, values).skip(1) =~= values);
    assert(layout[1] == Slot::Lit(l));
    lemma_then_lit(l, rest, values);
}

/// The place of a text at the start of a layout takes the first value.
proof fn lemma_then_text(rest: Seq<Slot>, t: Seq<char>, values: Seq<Value>)
    ensures
        fits(then_text(rest), text_then(t, values)) == fits(rest, values),
        well_formed(then_text(rest)) == well_formed(rest),
{
    assert(then_text(rest).skip(1) =~= rest);
    assert(text_then(t, values).skip(1) =~= values);
}

/// No fixed text that follows the place of an integer begins with a digit.
proof fn lemma_separators()
    ensures
        ",\n      \"y\": "@.len() > 0 && !is_digit(",\n      \"y\": "@[0]),
        ",\n      \"duration\": "@.len() > 0 && !is_digit(",\n      \"duration\": "@[0]),
        ",\n      \"button\": "@.len() > 0 && !is_digit(",\n      \"button\": "@[0]),
        ",\n        \"y\": "@.len() > 0 && !is_digit(",\n        \"y\": "@[0]),
        "\n      },\n      \"to\": {\n        \"x\": "@.len() > 0 && !is_digit(
            "\n      },\n      \"to\": {\n        \"x\": "@[0],
        ),
        "\n      },\n      \"button\": "@.len() > 0 && !is_digit(
            "\n      },\n      \"button\": "@[0],
        ),
        "\n    }\n  }"@.len() > 0 && !is_digit("\n    }\n  }"@[0]),
        "\n  {\n    "@.len() > 0 && "\n  {\n    "@[0] == '\n',
{
    reveal_strlit(",\n      \"y\": ");
    reveal_strlit(",\n      \"duration\": ");
    reveal_strlit(",\n      \"button\": ");
    reveal_strlit(",\n        \"y\": ");
    reveal_strlit("\n      },\n      \"to\": {\n        \"x\": ");
    reveal_strlit("\n      },\n      \"button\": ");
    reveal_strlit("\n    }\n  }");
    reveal_strlit("\n  {\n    ");
}

/// The names of the kinds of action differ from each other.
proof fn lemma_kind_names_differ()
    ensures
        "MouseMove"@ != "MouseClick"@,
        "MouseDrag"@ != "MouseMove"@,
        "MouseDrag"@ != "MouseClick"@,
        "KeyPress"@ != "MouseMove"@,
        "KeyPress"@ != "MouseClick"@,
        "KeyPress"@ != "MouseDrag"@,
        "KeyType"@ != "MouseMove"@,
        "KeyType"@ != "MouseClick"@,
        "KeyType"@ != "MouseDrag"@,
        "KeyType"@ != "KeyPress"@,
        "Screenshot"@ != "MouseMove"@,
        "Screenshot"@ != "MouseClick"@,
        "Screenshot"@ != "MouseDrag"@,
        "Screenshot"@ != "KeyPress"@,
        "Screenshot"@ != "KeyType"@,
        "Wait"@ != "MouseMove"@,
        "Wait"@ != "MouseClick"@,
        "Wait"@ != "MouseDrag"@,
        "Wait"@ != "KeyPress"@,
        "Wait"@ != "KeyType"@,
        "Wait"@ != "Screenshot"@,
{
    reveal_strlit("MouseMove");
    reveal_strlit("MouseClick");
    reveal_strlit("MouseDrag");
    reveal_strlit("KeyPress");
    reveal_strlit("KeyType");
    reveal_strlit("Screenshot");
    reveal_strlit("Wait");
    assert("MouseMove"@.len() == 9 && "MouseClick"@.len() == 10 && "MouseDrag"@.len() == 9);
    assert("KeyPress"@.len() == 8 && "KeyType"@.len() == 7 && "Screenshot"@.len() == 10);
    assert("Wait"@.len() == 4);
    assert("MouseMove"@[5] == 'M' && "MouseDrag"@[5] == 'D');
    assert("Screenshot"@[0] == 'S' && "MouseClick"@[0] == 'M');
}

/// A button is found again by its name.
pub proof fn lemma_button_named(button: MouseButton)
    ensures
        button_named(button_name(button)) == Some(button),
{
    reveal_strlit("Left");
    reveal_strlit("Middle");
    reveal_strlit("Right");
    reveal_strlit("Primary");
    reveal_strlit("Secondary");
    reveal_strlit("Button4");
    reveal_strlit("Button5");
    reveal_strlit("Button6");
    reveal_strlit("Button7");
    assert("Left"@.len() == 4 && "Middle"@.len() == 6 && "Right"@.len() == 5);
    assert("Primary"@.len() == 7 && "Secondary"@.len() == 9);
    assert("Button4"@.len() == 7 && "Button5"@.len() == 7 && "Button6"@.len() == 7
        && "Button7"@.len() == 7);
    assert("Primary"@[0] == 'P');
    assert("Button4"@[0] == 'B' && "Button5"@[0] == 'B' && "Button6"@[0] == 'B' && "Button7"@[0]
        == 'B');
    assert("Button4"@[6] == '4' && "Button5"@[6] == '5' && "Button6"@[6] == '6' && "Button7"@[6]
        == '7');
}

/// The kind of an action has a layout, which can be read back and which the
/// action's field values fill; and the action is found again from its kind
/// and its field values.
pub proof fn lemma_action_layout(action: RecordedActionView)
    ensures
        kind_layout(kind_name(action)) is Some,
        well_formed(kind_layout(kind_name(action))->0),
        fits(kind_layout(kind_name(action))->0, field_values(action)),
        action_of(kind_name(action), field_values(action)) == Some(action),
{
    lemma_kind_names_differ();
    lemma_separators();
    let none = Seq::<Value>::empty();
    let end = Seq::<Slot>::empty();
    lemma_then_lit("\n    }\n  }"@, end, none);
    match action {
        RecordedActionView::MouseMove { x, y, duration } => {
            lemma_then_int("\n    }\n  }"@, end, duration, none);
            let l2 = then_int(closing());
            let v2 = int_then(duration, none);
            lemma_then_int(",\n      \"duration\": "@, l2, y as i64, v2);
            let l1 = then_int(then_lit(",\n      \"duration\": "@, l2));
            let v1 = int_then(y as i64, v2);
            lemma_then_int(",\n      \"y\": "@, l1, x as i64, v1);
            let l0 = then_int(then_lit(",\n      \"y\": "@, l1));
            let v0 = int_then(x as i64, v1);
            lemma_then_lit(": {\n      \"x\": "@, l0, v0);
            assert(v0[0] == Value::Int(x as i64) && v0[1] == Value::Int(y as i64) && v0[2]
                == Value::Int(duration) && v0.len() == 3);
        },
        RecordedActionView::MouseClick { x, y, button } => {
            lemma_button_named(button);
            let name = button_name(button);
            lemma_then_text(closing(), name, none);
            let l2 = then_text(closing());
            let v2 = text_then(name, none);
            lemma_then_int(",\n      \"button\": "@, l2, y as i64, v2);
            let l1 = then_int(then_lit(",\n      \"button\": "@, l2));
            let v1 = int_then(y as i64, v2);
            lemma_then_int(",\n      \"y\": "@, l1, x as i64, v1);
            let l0 = then_int(then_lit(",\n      \"y\": "@, l1));
            let v0 = int_then(x as i64, v1);
            lemma_then_lit(": {\n      \"x\": "@, l0, v0);
            assert(v0[0] == Value::Int(x as i64) && v0[1] == Value::Int(y as i64) && v0[2]
                == Value::Text(name) && v0.len() == 3);
        },
        RecordedActionView::MouseDrag { from, to, button } => {
            lemma_button_named(button);
            let name = button_name(button);
            lemma_then_text(closing(), name, none);
            let l4 = then_text(closing());
            let v4 = text_then(name, none);
            lemma_then_int("\n      },\n      \"button\": "@, l4, to.y as i64, v4);
            let l3 = then_int(then_lit("\n      },\n      \"button\": "@, l4));
            let v3 = int_then(to.y as i64, v4);
            lemma_then_int(",\n        \"y\": "@, l3, to.x as i64, v3);
            let l2 = then_int(then_lit(",\n        \"y\": "@, l3));
            let v2 = int_then(to.x as i64, v3);
            lemma_then_int("\n      },\n      \"to\": {\n        \"x\": "@, l2, from.y as i64, v2);
            let l1 = then_int(then_lit("\n      },\n      \"to\": {\n        \"x\": "@, l2));
            let v1 = int_then(from.y as i64, v2);
            lemma_then_int(",\n        \"y\": "@, l1, from.x as i64, v1);
            let l0 = then_int(then_lit(",\n        \"y\": "@, l1));
            let v0 = int_then(from.x as i64, v1);
            lemma_then_lit(": {\n      \"from\": {\n        \"x\": "@, l0, v0);
            assert(v0.len() == 5 && v0[0] == Value::Int(from.x as i64) && v0[1] == Value::Int(
                from.y as i64,
            ) && v0[2] == Value::Int(to.x as i64) && v0[3] == Value::Int(to.y as i64) && v0[4]
                == Value::Text(name));
        },
        RecordedActionView::KeyPress { key } => {
            lemma_then_text(closing(), key, none);
            lemma_then_lit(": {\n      \"key\": "@, then_text(closing()), text_then(key, none));
            assert(text_then(key, none)[0] == Value::Text(key));
        },
        RecordedActionView::KeyType { text } => {
            lemma_then_text(closing(), text, none);
            lemma_then_lit(": {\n      \"text\": "@, then_text(closing()), text_then(text, none));
            assert(text_then(text, none)[0] == Value::Text(text));
        },
        RecordedActionView::Screenshot { path } => {
            lemma_then_text(closing(), path, none);
            lemma_then_lit(": {\n      \"path\": "@, then_text(closing()), text_then(path, none));
            assert(text_then(path, none)[0] == Value::Text(path));
        },
        RecordedActionView::Wait { duration } => {
            lemma_then_int("\n    }\n  }"@, end, duration, none);
            lemma_then_lit(
                ": {\n      \"duration\": "@,
                then_int(closing()),
                int_then(duration, none),
            );
            assert(int_then(duration, none)[0] == Value::Int(duration));
        },
    }
}

/// Reading the text of an action gives the action back, whatever follows
/// the text; and the text begins with a line break.
pub proof fn lemma_parse_rendered_action(action: RecordedActionView, rest: Seq<char>)
    ensures
        parse_action(render_action(action) + rest) == Some(
            (action, render_action(action).len()),
        ),
        render_action(action).len() > 0,
        render_action(action)[0] == '\n',
{
    reveal(render_action);
    reveal(parse_action);
    let kind = kind_name(action);
    let head_values = text_then(kind, Seq::empty());
    let layout = kind_layout(kind)->0;
    let head = render(opening(), head_values);
    let body = render(layout, field_values(action));
    lemma_action_layout(action);
    lemma_separators();
    lemma_then_text(Seq::empty(), kind, Seq::empty());
    lemma_then_lit("\n  {\n    "@, then_text(Seq::empty()), head_values);
    let text = render_action(action) + rest;
    assert(text =~= head + (body + rest));
    lemma_parse_rendered(opening(), head_values, body + rest);
    assert(text.skip(head.len() as int) =~= body + rest);
    lemma_parse_rendered(layout, field_values(action), rest);
    assert(head_values[0] == Value::Text(kind));
    assert(opening().skip(1) =~= then_text(Seq::empty()));
    assert(head =~= "\n  {\n    "@ + render(then_text(Seq::empty()), head_values));
    assert(head[0] == '\n');
}

/// Reading the text of one or more actions and the closing bracket gives
/// the actions back.
pub proof fn lemma_parse_rendered_actions(actions: Seq<RecordedActionView>)
    requires
        actions.len() > 0,
    ensures
        parse_actions(render_actions(actions) + seq!['\n', ']']) == Some(actions),
        render_actions(actions).len() > 0,
    decreases actions.len(),
{
    let end = seq!['\n', ']'];
    let first = render_action(actions[0]);
    let text = render_actions(actions) + end;
    if actions.len() == 1 {
        lemma_parse_rendered_action(actions[0], end);
        assert(text =~= first + end);
        assert(text.skip(first.len() as int) =~= end);
        assert(end[0] == '\n');
        assert(seq![actions[0]] =~= actions);
    } else {
        let others = actions.skip(1);
        let after = seq![','] + (render_actions(others) + end);
        lemma_parse_rendered_action(actions[0], after);
        assert(text =~= first + after);
        assert(text.skip(first.len() as int) =~= after);
        assert(after[0] == ',');
        assert(after.skip(1) =~= render_actions(others) + end);
        lemma_parse_rendered_actions(others);
        assert(seq![actions[0]] + others =~= actions);
    }
}

/// What is exported is imported unchanged: reading the text of a log gives
/// the same actions, in the same order and with the same fields.
pub proof fn lemma_import_export(actions: Seq<RecordedActionView>)
    ensures
        spec_import(spec_export(actions)) == Some(actions),
{
    let text = spec_export(actions);
    if actions.len() == 0 {
        assert(actions =~= Seq::<RecordedActionView>::empty());
    } else {
        let inner = render_actions(actions);
        let end = seq!['\n', ']'];
        lemma_parse_rendered_actions(actions);
        assert(text == seq!['['] + inner + end);
        assert(text.len() == 1 + inner.len() + 2);
        assert(seq!['[', ']'].len() == 2);
        assert(text != seq!['[', ']']);
        assert(text[0] == '[');
        assert(text.skip(1) =~= inner + end);
    }
}

/// The name of a button.
fn button_label(button: MouseButton) -> (name: &'static str)
    ensures
        name@ == button_name(button),
{
    match button {
        MouseButton::Left => "Left",
        MouseButton::Middle => "Middle",
        MouseButton::Right => "Right",
        MouseButton::Primary => "Primary",
        MouseButton::Secondary => "Secondary",
        MouseButton::Button4 => "Button4",
        MouseButton::Button5 => "Button5",
        MouseButton::Button6 => "Button6",
        MouseButton::Button7 => "Button7",
    }
}

/// The button of a name, if the name is one.
fn button_from(name: &str) -> (button: Option<MouseButton>)
    ensures
        button == button_named(name@),
{
    if text_eq(name, "Left") {
        Some(MouseButton::Left)
    } else if text_eq(name, "Middle") {
        Some(MouseButton::Middle)
    } else if text_eq(name, "Right") {
        Some(MouseButton::Right)
    } else if text_eq(name, "Primary") {
        Some(MouseButton::Primary)
    } else if text_eq(name, "Secondary") {
        Some(MouseButton::Secondary)
    } else if text_eq(name, "Button4") {
        Some(MouseButton::Button4)
    } else if text_eq(name, "Button5") {
        Some(MouseButton::Button5)
    } else if text_eq(name, "Button6") {
        Some(MouseButton::Button6)
    } else if text_eq(name, "Button7") {
        Some(MouseButton::Button7)
    } else {
        None
    }
}

/// The layout of the start of an action.
fn opening_parts() -> (parts: Vec<Part>)
    ensures
        parts_view(parts@) == opening(),
{
    let mut parts: Vec<Part> = Vec::new();
    parts.push(Part::Lit("\n  {\n    "));
    parts.push(Part::Text);
    assert(parts_view(parts@) =~= opening());
    parts
}

/// The layout of a pointer move.
fn mouse_move_parts() -> (parts: Vec<Part>)
    ensures
        parts_view(parts@) == mouse_move_layout(),
{
    let mut parts: Vec<Part> = Vec::new();
    parts.push(Part::Lit(": {\n      \"x\": "));
    parts.push(Part::Int);
    parts.push(Part::Lit(",\n      \"y\": "));
    parts.push(Part::Int);
    parts.push(Part::Lit(",\n      \"duration\": "));
    parts.push(Part::Int);
    parts.push(Part::Lit("\n    }\n  }"));
    assert(parts_view(parts@) =~= mouse_move_layout());
    parts
}

/// The layout of a click.
fn mouse_click_parts() -> (parts: Vec<Part>)
    ensures
        parts_view(parts@) == mouse_click_layout(),
{
    let mut parts: Vec<Part> = Vec::new();
    parts.push(Part::Lit(": {\n      \"x\": "));
    parts.push(Part::Int);
    parts.push(Part::Lit(",\n      \"y\": "));
    parts.push(Part::Int);
    parts.push(Part::Lit(",\n      \"button\": "));
    parts.push(Part::Text);
    parts.push(Part::Lit("\n    }\n  }"));
    assert(parts_view(parts@) =~= mouse_click_layout());
    parts
}

/// The layout of a drag.
fn mouse_drag_parts() -> (parts: Vec<Part>)
    ensures
        parts_view(parts@) == mouse_drag_layout(),
{
    let mut parts: Vec<Part> = Vec::new();
    parts.push(Part::Lit(": {\n      \"from\": {\n        \"x\": "));
    parts.push(Part::Int);
    parts.push(Part::Lit(",\n        \"y\": "));
    parts.push(Part::Int);
    parts.push(Part::Lit("\n      },\n      \"to\": {\n        \"x\": "));
    parts.push(Part::Int);
    parts.push(Part::Lit(",\n        \"y\": "));
    parts.push(Part::Int);
    parts.push(Part::Lit("\n      },\n      \"button\": "));
    parts.push(Part::Text);
    parts.push(Part::Lit("\n    }\n  }"));
    assert(parts_view(parts@) =~= mouse_drag_layout());
    parts
}

/// The layout of an action with one quoted text under the given label.
fn text_parts(label: &'static str) -> (parts: Vec<Part>)
    ensures
        parts_view(parts@) == then_lit(label@, then_text(closing())),
{
    let mut parts: Vec<Part> = Vec::new();
    parts.push(Part::Lit(label));
    parts.push(Part::Text);
    parts.push(Part::Lit("\n    }\n  }"));
    assert(parts_view(parts@) =~= then_lit(label@, then_text(closing())));
    parts
}

/// The layout of a wait.
fn wait_parts() -> (parts: Vec<Part>)
    ensures
        parts_view(parts@) == wait_layout(),
{
    let mut parts: Vec<Part> = Vec::new();
    parts.push(Part::Lit(": {\n      \"duration\": "));
    parts.push(Part::Int);
    parts.push(Part::Lit("\n    }\n  }"));
    assert(parts_view(parts@) =~= wait_layout());
    parts
}

/// The layout of an action of the named kind, if the name is that of a
/// kind.
fn kind_parts(kind: &str) -> (r: Option<Vec<Part>>)
    ensures
        match kind_layout(kind@) {
            Some(layout) => r matches Some(parts) && parts_view(parts@) == layout,
            None => r is None,
        },
{
    if text_eq(kind, "MouseMove") {
        Some(mouse_move_parts())
    } else if text_eq(kind, "MouseClick") {
        Some(mouse_click_parts())
    } else if text_eq(kind, "MouseDrag") {
        Some(mouse_drag_parts())
    } else if text_eq(kind, "KeyPress") {
        Some(text_parts(": {\n      \"key\": "))
    } else if text_eq(kind, "KeyType") {
        Some(text_parts(": {\n      \"text\": "))
    } else if text_eq(kind, "Screenshot") {
        Some(text_parts(": {\n      \"path\": "))
    } else if text_eq(kind, "Wait") {
        Some(wait_parts())
    } else {
        None
    }
}

/// The name of the kind of an action.
fn kind_of(action: &RecordedAction) -> (kind: &'static str)
    ensures
        kind@ == kind_name(action@),
{
    match action {
        RecordedAction::MouseMove { .. } => "MouseMove",
        RecordedAction::MouseClick { .. } => "MouseClick",
        RecordedAction::MouseDrag { .. } => "MouseDrag",
        RecordedAction::KeyPress { .. } => "KeyPress",
        RecordedAction::KeyType { .. } => "KeyType",
        RecordedAction::Screenshot { .. } => "Screenshot",
        RecordedAction::Wait { .. } => "Wait",
    }
}

/// The values of an action's fields, in the order of its layout.
fn fields_of(action: &RecordedAction) -> (fields: Vec<Field>)
    ensures
        fields_view(fields@) == field_values(action@),
{
    let mut fields: Vec<Field> = Vec::new();
    match action {
        RecordedAction::MouseMove { x, y, duration } => {
            fields.push(Field::Int(*x as i64));
            fields.push(Field::Int(*y as i64));
            fields.push(Field::Int(*duration));
        },
        RecordedAction::MouseClick { x, y, button } => {
            fields.push(Field::Int(*x as i64));
            fields.push(Field::Int(*y as i64));
            fields.push(Field::Text(String::from_str(button_label(*button))));
        },
        RecordedAction::MouseDrag { from, to, button } => {
            fields.push(Field::Int(from.x as i64));
            fields.push(Field::Int(from.y as i64));
            fields.push(Field::Int(to.x as i64));
            fields.push(Field::Int(to.y as i64));
            fields.push(Field::Text(String::from_str(button_label(*button))));
        },
        RecordedAction::KeyPress { key } => {
            fields.push(Field::Text(key.clone()));
        },
        RecordedAction::KeyType { text } => {
            fields.push(Field::Text(text.clone()));
        },
        RecordedAction::Screenshot { path } => {
            fields.push(Field::Text(path.clone()));
        },
        RecordedAction::Wait { duration } => {
            fields.push(Field::Int(*duration));
        },
    }
    assert(fields_view(fields@) =~= field_values(action@));
    fields
}

/// The coordinate that a field holds, if it holds one.
fn coordinate_of(field: &Field) -> (r: Option<i32>)
    ensures
        is_coordinate(field@) ==> r == Some(field@->Int_0 as i32),
        !is_coordinate(field@) ==> r is None,
{
    match field {
        Field::Int(v) => {
            if *v >= -2147483648 && *v <= 2147483647 {
                Some(*v as i32)
            } else {
                None
            }
        },
        Field::Text(_) => None,
    }
}

/// The integer that a field holds, if it holds one.
fn int_of(field: &Field) -> (r: Option<i64>)
    ensures
        field@ is Int ==> r == Some(field@->Int_0),
        !(field@ is Int) ==> r is None,
{
    match field {
        Field::Int(v) => Some(*v),
        Field::Text(_) => None,
    }
}

/// The text that a field holds, if it holds one.
fn text_of(field: &Field) -> (r: Option<String>)
    ensures
        field@ is Text ==> (r matches Some(t) && t@ == field@->Text_0),
        !(field@ is Text) ==> r is None,
{
    match field {
        Field::Int(_) => None,
        Field::Text(t) => Some(t.clone()),
    }
}

/// The button that a field names, if it names one.
fn button_of(field: &Field) -> (r: Option<MouseButton>)
    ensures
        is_button(field@) ==> r == button_named(field@->Text_0),
        !is_button(field@) ==> r is None,
{
    match field {
        Field::Int(_) => None,
        Field::Text(t) => button_from(t.as_str()),
    }
}

/// The pointer move with the given field values, if there is one.
fn mouse_move_from(fields: &Vec<Field>) -> (r: Option<RecordedAction>)
    ensures
        match action_of("MouseMove"@, fields_view(fields@)) {
            Some(action) => r matches Some(found) && found@ == action,
            None => r is None,
        },
{
    if fields.len() != 3 {
        return None;
    }
    let ghost values = fields_view(fields@);
    assert(values[0] == fields@[0]@ && values[1] == fields@[1]@ && values[2] == fields@[2]@);
    match (coordinate_of(&fields[0]), coordinate_of(&fields[1]), int_of(&fields[2])) {
        (Some(x), Some(y), Some(duration)) => Some(RecordedAction::MouseMove { x, y, duration }),
        _ => None,
    }
}

/// The click with the given field values, if there is one.
fn mouse_click_from(fields: &Vec<Field>) -> (r: Option<RecordedAction>)
    requires
        "MouseClick"@ != "MouseMove"@,
    ensures
        match action_of("MouseClick"@, fields_view(fields@)) {
            Some(action) => r matches Some(found) && found@ == action,
            None => r is None,
        },
{
    if fields.len() != 3 {
        return None;
    }
    let ghost values = fields_view(fields@);
    assert(values[0] == fields@[0]@ && values[1] == fields@[1]@ && values[2] == fields@[2]@);
    match (coordinate_of(&fields[0]), coordinate_of(&fields[1]), button_of(&fields[2])) {
        (Some(x), Some(y), Some(button)) => Some(RecordedAction::MouseClick { x, y, button }),
        _ => None,
    }
}

/// The drag with the given field values, if there is one.
fn mouse_drag_from(fields: &Vec<Field>) -> (r: Option<RecordedAction>)
    requires
        "MouseDrag"@ != "MouseMove"@,
        "MouseDrag"@ != "MouseClick"@,
    ensures
        match action_of("MouseDrag"@, fields_view(fields@)) {
            Some(action) => r matches Some(found) && found@ == action,
            None => r is None,
        },
{
    if fields.len() != 5 {
        return None;
    }
    let ghost values = fields_view(fields@);
    assert(values[0] == fields@[0]@ && values[1] == fields@[1]@ && values[2] == fields@[2]@
        && values[3] == fields@[3]@ && values[4] == fields@[4]@);
    match (
        coordinate_of(&fields[0]),
        coordinate_of(&fields[1]),
        coordinate_of(&fields[2]),
        coordinate_of(&fields[3]),
        button_of(&fields[4]),
    ) {
        (Some(x1), Some(y1), Some(x2), Some(y2), Some(button)) => Some(
            RecordedAction::MouseDrag {
                from: Point { x: x1, y: y1 },
                to: Point { x: x2, y: y2 },
                button,
            },
        ),
        _ => None,
    }
}

/// The only field of an action, if it is a text.
fn only_text(fields: &Vec<Field>) -> (r: Option<String>)
    ensures
        fields_view(fields@).len() == 1 && fields_view(fields@)[0] is Text ==> (r matches Some(t)
            && t@ == fields_view(fields@)[0]->Text_0),
        !(fields_view(fields@).len() == 1 && fields_view(fields@)[0] is Text) ==> r is None,
{
    if fields.len() != 1 {
        return None;
    }
    assert(fields_view(fields@)[0] == fields@[0]@);
    text_of(&fields[0])
}

/// The action of the named kind with the given field values, if there is
/// one.
fn action_from(kind: &str, fields: &Vec<Field>) -> (r: Option<RecordedAction>)
    ensures
        match action_of(kind@, fields_view(fields@)) {
            Some(action) => r matches Some(found) && found@ == action,
            None => r is None,
        },
{
    proof {
        lemma_kind_names_differ();
    }
    if text_eq(kind, "MouseMove") {
        mouse_move_from(fields)
    } else if text_eq(kind, "MouseClick") {
        mouse_click_from(fields)
    } else if text_eq(kind, "MouseDrag") {
        mouse_drag_from(fields)
    } else if text_eq(kind, "KeyPress") {
        match only_text(fields) {
            Some(key) => Some(RecordedAction::KeyPress { key }),
            None => None,
        }
    } else if text_eq(kind, "KeyType") {
        match only_text(fields) {
            Some(text) => Some(RecordedAction::KeyType { text }),
            None => None,
        }
    } else if text_eq(kind, "Screenshot") {
        match only_text(fields) {
            Some(path) => Some(RecordedAction::Screenshot { path }),
            None => None,
        }
    } else if text_eq(kind, "Wait") {
        if fields.len() != 1 {
            return None;
        }
        assert(fields_view(fields@)[0] == fields@[0]@);
        match int_of(&fields[0]) {
            Some(duration) => Some(RecordedAction::Wait { duration }),
            None => None,
        }
    } else {
        None
    }
}

/// Appends the text of one action.
fn write_action(out: &mut String, action: &RecordedAction)
    ensures
        final(out)@ == old(out)@ + render_action(action@),
{
    reveal(render_action);
    let kind = kind_of(action);
    let head = opening_parts();
    let mut head_fields: Vec<Field> = Vec::new();
    head_fields.push(Field::Text(String::from_str(kind)));
    let ghost head_values = text_then(kind@, Seq::empty());
    proof {
        assert(fields_view(head_fields@) =~= head_values);
        lemma_then_text(Seq::empty(), kind@, Seq::empty());
        lemma_then_lit("\n  {\n    "@, then_text(Seq::empty()), head_values);
        lemma_action_layout(action@);
    }
    write_layout(out, &head, &head_fields);
    let fields = fields_of(action);
    match kind_parts(kind) {
        Some(parts) => {
            write_layout(out, &parts, &fields);
            assert(out@ =~= old(out)@ + render_action(action@));
        },
        None => {
            assert(false);
        },
    }
}

/// Reads one action at a position. Yields the action and the position after
/// it.
fn read_action(text: &Vec<char>, pos: usize) -> (r: Option<(RecordedAction, usize)>)
    requires
        pos <= text@.len(),
    ensures
        match parse_action(text@.skip(pos as int)) {
            Some((action, n)) => r matches Some((found, end)) && found@ == action && end == pos
                + n && 0 <= n && pos + n <= text@.len(),
            None => r is None,
        },
{
    reveal(parse_action);
    let ghost s = text@.skip(pos as int);
    let head = opening_parts();
    match read_layout(text, pos, &head) {
        Some((head_fields, at)) => {
            if head_fields.len() != 1 {
                return None;
            }
            assert(fields_view(head_fields@)[0] == head_fields@[0]@);
            match text_of(&head_fields[0]) {
                Some(kind) => {
                    assert(s.skip(at - pos) =~= text@.skip(at as int));
                    match kind_parts(kind.as_str()) {
                        Some(parts) => match read_layout(text, at, &parts) {
                            Some((fields, end)) => match action_from(kind.as_str(), &fields) {
                                Some(action) => Some((action, end)),
                                None => None,
                            },
                            None => None,
                        },
                        None => None,
                    }
                },
                None => None,
            }
        },
        None => None,
    }
}

/// Writes a log as text.
pub(crate) fn export(actions: &Vec<RecordedAction>) -> (text: String)
    ensures
        text@ == spec_export(actions_view(actions@)),
{
    let ghost log = actions_view(actions@);
    let mut out = String::new();
    push_char(&mut out, '[');
    let n = actions.len();
    if n == 0 {
        push_char(&mut out, ']');
        assert(out@ =~= spec_export(log));
        return out;
    }
    let mut i: usize = 0;
    assert(log.skip(0) =~= log);
    assert(out@ =~= seq!['[']);
    while i < n
        invariant
            log == actions_view(actions@),
            n == actions@.len(),
            0 < n,
            i <= n,
            i == 0 ==> out@ == seq!['['],
            0 < i < n ==> seq!['['] + render_actions(log) == out@ + seq![','] + render_actions(
                log.skip(i as int),
            ),
            i == n ==> seq!['['] + render_actions(log) == out@,
        decreases n - i,
    {
        let ghost before = out@;
        let ghost left = log.skip(i as int);
        assert(left[0] == actions@[i as int]@);
        assert(left.skip(1) =~= log.skip(i + 1));
        if i > 0 {
            push_char(&mut out, ',');
        }
        write_action(&mut out, &actions[i]);
        proof {
            let one = render_action(left[0]);
            if i == 0 {
                assert(out@ =~= seq!['['] + one);
                assert(left =~= log);
                if n == 1 {
                    assert(seq!['['] + render_actions(log) =~= out@);
                } else {
                    assert(seq!['['] + render_actions(log) =~= out@ + seq![','] + render_actions(
                        log.skip(1),
                    ));
                }
            } else {
                assert(out@ =~= before + seq![','] + one);
                if i + 1 == n {
                    assert(left.len() == 1);
                    assert(before + seq![','] + render_actions(left) =~= out@);
                } else {
                    assert(before + seq![','] + render_actions(left) =~= out@ + seq![',']
                        + render_actions(left.skip(1)));
                }
            }
        }
        i = i + 1;
    }
    push_char(&mut out, '\n');
    push_char(&mut out, ']');
    assert(out@ =~= spec_export(log));
    out
}

/// Reads the text of a log. Yields its actions if the text is that of a
/// log, and nothing otherwise.
pub(crate) fn import(text: &str) -> (r: Option<Vec<RecordedAction>>)
    ensures
        match spec_import(text@) {
            Some(log) => r matches Some(actions) && actions_view(actions@) == log,
            None => r is None,
        },
{
    let chars = to_chars(text);
    let len = chars.len();
    let mut actions: Vec<RecordedAction> = Vec::new();
    if len == 2 && chars[0] == '[' && chars[1] == ']' {
        assert(chars@ =~= seq!['[', ']']);
        assert(actions_view(actions@) =~= Seq::<RecordedActionView>::empty());
        return Some(actions);
    }
    if len == 0 || chars[0] != '[' {
        return None;
    }
    assert(chars@ != seq!['[', ']']) by {
        if chars@ == seq!['[', ']'] {
            assert(chars@.len() == 2);
            assert(chars@[1] == ']');
        }
    }
    let ghost inner = chars@.skip(1);
    let mut at: usize = 1;
    proof {
        assert(actions_view(actions@) =~= Seq::<RecordedActionView>::empty());
        match parse_actions(inner) {
            Some(rest) => {
                assert(actions_view(actions@) + rest =~= rest);
            },
            None => {},
        }
    }
    while at < len
        invariant
            len == chars@.len(),
            chars@ == text@,
            inner == chars@.skip(1),
            1 <= at <= len,
            spec_import(text@) == parse_actions(inner),
            parse_actions(inner) == (match parse_actions(chars@.skip(at as int)) {
                Some(rest) => Some(actions_view(actions@) + rest),
                None => None,
            }),
        decreases len - at,
    {
        let ghost here = chars@.skip(at as int);
        let ghost before = actions_view(actions@);
        match read_action(&chars, at) {
            Some((action, end)) => {
                if end == at {
                    return None;
                }
                let ghost after = chars@.skip(end as int);
                assert(here.skip(end - at) =~= after);
                if end < len && chars[end] == ',' {
                    proof {
                        assert(after[0] == chars@[end as int]);
                        assert(after.skip(1) =~= chars@.skip(end + 1));
                        match parse_actions(chars@.skip(end + 1)) {
                            Some(rest) => {
                                assert(before.push(action@) + rest =~= before + (seq![action@]
                                    + rest));
                            },
                            None => {},
                        }
                    }
                    actions.push(action);
                    assert(actions_view(actions@) =~= before.push(action@));
                    at = end + 1;
                } else if len - end == 2 && chars[end] == '\n' && chars[end + 1] == ']' {
                    proof {
                        assert(after =~= seq!['\n', ']']);
                        assert(after[0] == '\n');
                        assert(before.push(action@) =~= before + seq![action@]);
                    }
                    actions.push(action);
                    assert(actions_view(actions@) =~= before.push(action@));
                    return Some(actions);
                } else {
                    proof {
                        if end < len {
                            assert(after[0] == chars@[end as int]);
                        }
                        if after == seq!['\n', ']'] {
                            assert(after.len() == 2);
                            assert(after[0] == '\n' && after[1] == ']');
                            assert(after[1] == chars@[end + 1]);
                        }
                    }
                    return None;
                }
            },
            None => {
                return None;
            },
        }
    }
    proof {
        let here = chars@.skip(at as int);
        assert(here.len() == 0);
        reveal(parse_action);
        lemma_separators();
        assert(parse_action(here) is None) by {
            let l = "\n  {\n    "@;
            assert(opening()[0] == Slot::Lit(l));
        }
    }
    None
}

} // verus!
