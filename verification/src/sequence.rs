//! Plans for fixed sequences of actions: moves, clicks, key presses and
//! waits, each given as a list.

use vstd::prelude::*;
use vstd::string::*;

use crate::keyboard::{
    convert_key, key_of, key_step, lemma_unknown_index_settles, names_of, push_key, steps_view,
    unknown_index, unsupported_key, KeyboardPlan, KeyboardPlanView, KeyboardStep,
    KeyboardStepView,
};
use crate::mouse::{button_step, move_step, Mouse, MouseAction, MouseStep};
use crate::types::{Direction, MouseButton, Point};

verus! {

/// The steps that move the pointer to each point in turn.
pub open spec fn spec_mouse_sequence(moves: Seq<(i32, i32)>) -> Seq<MouseStep> {
    Seq::new(moves.len(), |i: int| move_step(Point { x: moves[i].0, y: moves[i].1 }))
}

/// The steps that click at each point in turn: a move to the point, then a
/// click of the button.
pub open spec fn spec_click_sequence(clicks: Seq<(i32, i32, MouseButton)>) -> Seq<MouseStep> {
    Seq::new(
        2 * clicks.len(),
        |k: int|
            if k % 2 == 0 {
                move_step(Point { x: clicks[k / 2].0, y: clicks[k / 2].1 })
            } else {
                button_step(Some(clicks[k / 2].2), Direction::Click)
            },
    )
}

/// The steps that wait for each duration in turn.
pub open spec fn spec_wait_sequence(waits: Seq<u64>) -> Seq<MouseStep> {
    Seq::new(waits.len(), |i: int| MouseStep::Pause(waits[i]))
}

/// The steps that press the first `n` keys, in order.
pub open spec fn pressed_keys(names: Seq<Seq<char>>, n: int) -> Seq<KeyboardStepView>
    decreases n,
{
    if n <= 0 {
        Seq::empty()
    } else {
        pressed_keys(names, n - 1).push(
            key_step(key_of(names[n - 1])->Some_0, Direction::Press, "Failed to press key"@),
        )
    }
}

/// The plan that presses the named keys one after the other. It ends before
/// the first name that stands for no key, and then reports that name.
pub open spec fn spec_keyboard_sequence(names: Seq<Seq<char>>) -> KeyboardPlanView {
    let k = unknown_index(names, names.len() as int);
    KeyboardPlanView {
        steps: pressed_keys(names, k),
        outcome: if k == names.len() {
            Ok(())
        } else {
            Err(unsupported_key(names[k]))
        },
    }
}

/// Plans a move of the pointer to each point in turn.
pub fn mouse_sequence(moves: &[(i32, i32)]) -> (steps: Vec<MouseStep>)
    ensures
        steps@ == spec_mouse_sequence(moves@),
{
    let mut steps: Vec<MouseStep> = Vec::new();
    let mut i: usize = 0;
    while i < moves.len()
        invariant
            i <= moves@.len(),
            steps@.len() == i,
            forall|k: int|
                0 <= k < i ==> steps@[k] == move_step(Point { x: moves@[k].0, y: moves@[k].1 }),
        decreases moves@.len() - i,
    {
        let (x, y) = moves[i];
        steps.push(MouseStep::Act(MouseAction::MoveTo { x, y }));
        i = i + 1;
    }
    assert(steps@ =~= spec_mouse_sequence(moves@));
    steps
}

/// Plans a click at each point in turn, with the button given for it.
pub fn click_sequence(clicks: &[(i32, i32, MouseButton)]) -> (steps: Vec<MouseStep>)
    ensures
        steps@ == spec_click_sequence(clicks@),
{
    let planner = Mouse { connection: () };
    let mut steps: Vec<MouseStep> = Vec::new();
    let mut i: usize = 0;
    while i < clicks.len()
        invariant
            i <= clicks@.len(),
            steps@.len() == 2 * i,
            forall|k: int|
                0 <= k < 2 * i ==> steps@[k] == (if k % 2 == 0 {
                    move_step(Point { x: clicks@[k / 2].0, y: clicks@[k / 2].1 })
                } else {
                    button_step(Some(clicks@[k / 2].2), Direction::Click)
                }),
        decreases clicks@.len() - i,
    {
        let (x, y, button) = clicks[i];
        let click = planner.click_at(x, y, Some(button));
        steps.push(click[0]);
        steps.push(click[1]);
        i = i + 1;
    }
    assert(steps@ =~= spec_click_sequence(clicks@));
    steps
}

/// Plans pressing each named key in turn.
pub fn keyboard_sequence(keys: &[&str]) -> (plan: KeyboardPlan)
    ensures
        plan@ == spec_keyboard_sequence(names_of(keys@)),
{
    let ghost names = names_of(keys@);
    let mut steps: Vec<KeyboardStep> = Vec::new();
    let mut i: usize = 0;
    assert(steps_view(steps@) =~= pressed_keys(names, 0));
    while i < keys.len()
        invariant
            names == names_of(keys@),
            i <= keys@.len(),
            unknown_index(names, i as int) == i,
            steps_view(steps@) == pressed_keys(names, i as int),
        decreases keys@.len() - i,
    {
        let name: &str = keys[i];
        assert(names[i as int] == name@);
        match convert_key(name) {
            Ok(code) => {
                push_key(
                    &mut steps,
                    code,
                    Direction::Press,
                    String::from_str("Failed to press key"),
                );
            },
            Err(e) => {
                proof {
                    lemma_unknown_index_settles(names, i as int, names.len() as int);
                }
                return KeyboardPlan { steps, outcome: Err(e) };
            },
        }
        i = i + 1;
    }
    KeyboardPlan { steps, outcome: Ok(()) }
}

/// Plans a wait for each duration, in microseconds, in turn.
pub fn wait_sequence(waits: &[u64]) -> (steps: Vec<MouseStep>)
    ensures
        steps@ == spec_wait_sequence(waits@),
{
    let mut steps: Vec<MouseStep> = Vec::new();
    let mut i: usize = 0;
    while i < waits.len()
        invariant
            i <= waits@.len(),
            steps@.len() == i,
            forall|k: int| 0 <= k < i ==> steps@[k] == MouseStep::Pause(waits@[k]),
        decreases waits@.len() - i,
    {
        steps.push(MouseStep::Pause(waits[i]));
        i = i + 1;
    }
    assert(steps@ =~= spec_wait_sequence(waits@));
    steps
}

} // verus!
