//! Pointer work: button conversion, eased motion and the plans of [`Mouse`].
//!
//! The methods of [`Mouse`] plan pointer work: each returns the steps for
//! the backend to carry out in order. A driver carries them out, stops at the
//! first one that the backend fails and reports that failure with
//! [`MouseAction::failure`]. Where a plan depends on where the pointer is,
//! the method takes the position that the driver has just read.
//!
//! Durations are counts of microseconds; fractions of a motion are counts of
//! millionths (see [`crate::tween`]).

use vstd::prelude::*;
use vstd::string::*;

use crate::error::{outcome, unsupported, wrapped_text, MoverError, MoverResult, Outcome};
use crate::tween::{
    interpolate, lemma_interpolate_endpoints, linear_tween, spec_interpolate, UNIT,
};
use crate::types::{Axis, Direction, MouseButton, Point, Size};

verus! {

/// A button that every backend has.
#[derive(Debug, Clone, Copy, PartialEq, Eq, Hash, Structural)]
pub enum NativeButton {
    Left,
    Middle,
    Right,
}

/// The native button that stands in for a button.
///
/// The left, middle and right buttons are themselves. `Primary` is the left
/// and `Secondary` the right button. Backends lack the extended buttons, so
/// `Button4` and `Button6` fall back to the left button, `Button5` and
/// `Button7` to the right one: a lossy approximation, made on purpose.
pub open spec fn native_button(button: MouseButton) -> NativeButton {
    match button {
        MouseButton::Left => NativeButton::Left,
        MouseButton::Right => NativeButton::Right,
        MouseButton::Middle => NativeButton::Middle,
        MouseButton::Primary => NativeButton::Left,
        MouseButton::Secondary => NativeButton::Right,
        MouseButton::Button4 => NativeButton::Left,
        MouseButton::Button5 => NativeButton::Right,
        MouseButton::Button6 => NativeButton::Left,
        MouseButton::Button7 => NativeButton::Right,
    }
}

/// The button that is meant where none is named: the primary one.
pub open spec fn button_or_default(button: Option<MouseButton>) -> MouseButton {
    match button {
        Some(b) => b,
        None => MouseButton::Primary,
    }
}

/// One thing for a backend to do with the pointer.
#[derive(Debug, Clone, Copy, PartialEq, Eq, Hash, Structural)]
pub enum MouseAction {
    /// Move the pointer to absolute coordinates.
    MoveTo { x: i32, y: i32 },
    /// Press, release or click a button.
    Button { button: NativeButton, direction: Direction },
    /// Scroll by a number of clicks; positive is up or right.
    Scroll { clicks: i32, axis: Axis },
}

impl MouseAction {
    /// The words that describe the action when it fails.
    pub open spec fn failure_context(self) -> Seq<char> {
        match self {
            MouseAction::MoveTo { .. } => "Failed to move mouse"@,
            MouseAction::Button { direction: Direction::Click, .. } => "Failed to click mouse"@,
            MouseAction::Button { direction: Direction::Press, .. } => {
                "Failed to press mouse button"@
            },
            MouseAction::Button { direction: Direction::Release, .. } => {
                "Failed to release mouse button"@
            },
            MouseAction::Scroll { axis: Axis::Vertical, .. } => "Failed to scroll"@,
            MouseAction::Scroll { axis: Axis::Horizontal, .. } => "Failed to scroll horizontally"@,
        }
    }

    /// The error to report when the backend fails this action: what was
    /// attempted, then what the backend said.
    pub fn failure(&self, native: &str) -> (e: MoverError)
        ensures
            e@ == unsupported(wrapped_text(self.failure_context(), native@)),
    {
        let context: &str = match self {
            MouseAction::MoveTo { .. } => "Failed to move mouse",
            MouseAction::Button { direction: Direction::Click, .. } => "Failed to click mouse",
            MouseAction::Button { direction: Direction::Press, .. } => {
                "Failed to press mouse button"
            },
            MouseAction::Button { direction: Direction::Release, .. } => {
                "Failed to release mouse button"
            },
            MouseAction::Scroll { axis: Axis::Vertical, .. } => "Failed to scroll",
            MouseAction::Scroll { axis: Axis::Horizontal, .. } => "Failed to scroll horizontally",
        };
        MoverError::backend_failure(context, native)
    }
}

/// One step of pointer work.
#[derive(Debug, Clone, Copy, PartialEq, Eq, Hash, Structural)]
pub enum MouseStep {
    /// Have the backend carry out an action.
    Act(MouseAction),
    /// Wait for the given number of microseconds.
    Pause(u64),
}

/// The pause between the clicks of a double or triple click: fifty
/// milliseconds, in microseconds.
pub const CLICK_PAUSE: u64 = 50_000;

/// The nominal number of frames of an eased motion per second.
pub const FRAME_RATE: u64 = 60;

/// The step that moves the pointer to a point.
pub open spec fn move_step(p: Point) -> MouseStep {
    MouseStep::Act(MouseAction::MoveTo { x: p.x, y: p.y })
}

/// The step that does something to the button that stands in for `button`.
pub open spec fn button_step(button: Option<MouseButton>, direction: Direction) -> MouseStep {
    MouseStep::Act(
        MouseAction::Button { button: native_button(button_or_default(button)), direction },
    )
}

/// The number of frames of a motion that lasts `duration` microseconds: the
/// duration times the frame rate, rounded to the nearest whole number, and at
/// least one.
pub open spec fn spec_frame_count(duration: int) -> int {
    let n = (duration * 60 + 500_000) / 1_000_000;
    if n < 1 {
        1
    } else {
        n
    }
}

/// The fraction of the time, in millionths, that has passed at frame `i` of
/// `n`.
pub open spec fn spec_progress(i: int, n: int) -> int {
    i * UNIT / n
}

/// The point of a frame: each axis is interpolated between the start and the
/// target by the eased progress as the tween gave it. Eased progress below
/// zero or above one carries the point beyond the start or the target.
pub open spec fn frame_point(start: Point, target: Point, eased: int) -> Point {
    Point {
        x: spec_interpolate(start.x as int, target.x as int, eased) as i32,
        y: spec_interpolate(start.y as int, target.y as int, eased) as i32,
    }
}

/// The steps of an eased motion whose frames have the given eased progress:
/// a move for each frame, and between two frames a pause of an equal share
/// of the duration.
pub open spec fn tween_path(start: Point, target: Point, duration: int, eased: Seq<i64>) -> Seq<
    MouseStep,
> {
    let n = eased.len() - 1;
    Seq::new(
        (2 * n + 1) as nat,
        |k: int|
            if k % 2 == 0 {
                move_step(frame_point(start, target, eased[k / 2] as int))
            } else {
                MouseStep::Pause((duration / n) as u64)
            },
    )
}

/// Whether `eased` holds, for each frame of a motion of `n` steps, a value
/// that the tween can return for the frame's progress.
pub open spec fn eased_by<F: Fn(u32) -> i64>(tween: F, n: int, eased: Seq<i64>) -> bool {
    &&& eased.len() == n + 1
    &&& forall|i: int|
        0 <= i <= n ==> call_ensures(tween, (spec_progress(i, n) as u32,), #[trigger] eased[i])
}

/// Whether the tween maps one to one, so that a motion lands on its target.
pub open spec fn lands_on_target<F: Fn(u32) -> i64>(tween: F) -> bool {
    forall|e: i64| call_ensures(tween, (UNIT,), e) ==> e == UNIT
}

/// The eased progress of the frames of a linear motion of `n` steps.
pub open spec fn linear_progress(n: int) -> Seq<i64> {
    Seq::new((n + 1) as nat, |i: int| spec_progress(i, n) as i64)
}

/// The last frame of an eased motion is at the target if the tween maps one
/// to one.
pub proof fn lemma_tween_path_lands(start: Point, target: Point, duration: int, eased: Seq<i64>)
    requires
        eased.len() >= 1,
        eased.last() == UNIT,
    ensures
        tween_path(start, target, duration, eased).last() == move_step(target),
{
    let n = eased.len() - 1;
    let path = tween_path(start, target, duration, eased);
    assert(path.len() == 2 * n + 1);
    assert((2 * n) % 2 == 0 && (2 * n) / 2 == n);
    assert(path[2 * n] == move_step(frame_point(start, target, eased[n] as int)));
    lemma_interpolate_endpoints(start.x, target.x);
    lemma_interpolate_endpoints(start.y, target.y);
}

/// The number of frames of a motion that lasts `duration` microseconds.
pub fn frame_count(duration: i64) -> (n: u64)
    ensures
        n == spec_frame_count(duration as int),
        1 <= n <= 0x2_0000_0000_0000,
{
    if duration <= 0 {
        1
    } else {
        let scaled: u128 = duration as u128 * 60 + 500_000;
        let n: u128 = scaled / 1_000_000;
        if n < 1 {
            1
        } else {
            n as u64
        }
    }
}

/// The fraction of the time, in millionths, that has passed at frame `i` of
/// `n`.
pub fn progress(i: u64, n: u64) -> (p: u32)
    requires
        i <= n,
        0 < n,
    ensures
        p == spec_progress(i as int, n as int),
        p <= UNIT,
        i == n ==> p == UNIT,
        i == 0 ==> p == 0,
{
    let scaled: u128 = i as u128 * 1_000_000;
    let p: u128 = scaled / (n as u128);
    proof {
        let (ii, nn) = (i as int, n as int);
        assert(ii * 1_000_000 / nn <= 1_000_000 && (ii == nn ==> ii * 1_000_000 / nn
            == 1_000_000)) by (nonlinear_arith)
            requires
                0 <= ii <= nn,
                0 < nn,
        ;
    }
    p as u32
}

/// The steps of a click with `count` presses of the button: the clicks, with
/// a pause between two of them.
pub open spec fn clicks(button: Option<MouseButton>, count: int) -> Seq<MouseStep>
    decreases count,
{
    if count <= 0 {
        Seq::empty()
    } else if count == 1 {
        seq![button_step(button, Direction::Click)]
    } else {
        clicks(button, count - 1).push(MouseStep::Pause(CLICK_PAUSE)).push(
            button_step(button, Direction::Click),
        )
    }
}

/// The steps of a drag to a point: the button goes down, the pointer moves,
/// the button goes up.
pub open spec fn drag_steps(target: Point, button: Option<MouseButton>) -> Seq<MouseStep> {
    seq![
        button_step(button, Direction::Press),
        move_step(target),
        button_step(button, Direction::Release),
    ]
}

/// The steps of a plain wait: one pause if the duration is positive, else
/// nothing.
pub open spec fn wait_steps(micros: i64) -> Seq<MouseStep> {
    if micros > 0 {
        seq![MouseStep::Pause(micros as u64)]
    } else {
        Seq::empty()
    }
}

/// What a reading of the pointer's position yields.
pub open spec fn spec_position(location: Result<(i32, i32), String>) -> Outcome<Point> {
    match location {
        Ok((x, y)) => Ok(Point { x, y }),
        Err(e) => Err(unsupported(wrapped_text("Failed to get mouse position"@, e@))),
    }
}

/// What a reading of the main display's dimensions yields.
pub open spec fn spec_size(display: Result<(i32, i32), String>) -> Outcome<Size> {
    match display {
        Ok((width, height)) => Ok(Size { width, height }),
        Err(e) => Err(unsupported(wrapped_text("Failed to get screen size"@, e@))),
    }
}

/// Whether a point is on the screen whose dimensions were read.
pub open spec fn spec_on_screen(display: Result<(i32, i32), String>, x: i32, y: i32) -> Outcome<
    bool,
> {
    match spec_size(display) {
        Ok(size) => Ok((Point { x, y }).on_screen(size)),
        Err(e) => Err(e),
    }
}

/// Plans pointer work for the backend connection that it holds.
pub struct Mouse<C> {
    /// The connection to the backend that carries the plans out.
    pub connection: C,
}

impl<C> Mouse<C> {
    /// Takes over a backend connection, or reports why none could be made.
    pub fn new(connection: Result<C, String>) -> (r: MoverResult<Mouse<C>>)
        ensures
            match connection {
                Ok(c) => r is Ok && r->Ok_0.connection == c,
                Err(e) => r is Err && r->Err_0@ == unsupported(
                    wrapped_text("Failed to create Enigo instance"@, e@),
                ),
            },
    {
        match connection {
            Ok(c) => Ok(Mouse { connection: c }),
            Err(e) => Err(
                MoverError::backend_failure("Failed to create Enigo instance", e.as_str()),
            ),
        }
    }

    /// The pointer's position, from what the backend answered when it was
    /// asked for it. A failed reading is wrapped.
    pub fn position(&self, location: Result<(i32, i32), String>) -> (r: MoverResult<Point>)
        ensures
            outcome(r) == spec_position(location),
    {
        match location {
            Ok((x, y)) => Ok(Point::new(x, y)),
            Err(e) => Err(MoverError::backend_failure("Failed to get mouse position", e.as_str())),
        }
    }

    /// The size of the main display, from what the backend answered when it
    /// was asked for it. A failed reading is wrapped.
    pub fn size(&self, display: Result<(i32, i32), String>) -> (r: MoverResult<Size>)
        ensures
            outcome(r) == spec_size(display),
    {
        match display {
            Ok((width, height)) => Ok(Size::new(width, height)),
            Err(e) => Err(MoverError::backend_failure("Failed to get screen size", e.as_str())),
        }
    }

    /// Whether the coordinates are on the main display, whose dimensions the
    /// backend has been asked for.
    pub fn on_screen(&self, display: Result<(i32, i32), String>, x: i32, y: i32) -> (r:
        MoverResult<bool>)
        ensures
            outcome(r) == spec_on_screen(display, x, y),
    {
        match self.size(display) {
            Ok(screen) => Ok(x >= 0 && y >= 0 && x < screen.width && y < screen.height),
            Err(e) => Err(e),
        }
    }

    /// Plans an immediate move to absolute coordinates: one single move.
    pub fn move_to(&self, x: i32, y: i32) -> (steps: Vec<MouseStep>)
        ensures
            steps@ == seq![move_step(Point { x, y })],
    {
        let mut steps: Vec<MouseStep> = Vec::new();
        steps.push(MouseStep::Act(MouseAction::MoveTo { x, y }));
        assert(steps@ =~= seq![move_step(Point { x, y })]);
        steps
    }

    /// Plans a move to absolute coordinates that takes `duration`
    /// microseconds at an even pace, starting from `current`, the pointer's
    /// position as it was read at the time of the call.
    pub fn move_to_with_duration(&self, current: Point, x: i32, y: i32, duration: i64) -> (steps:
        Vec<MouseStep>)
        ensures
            duration <= 0 ==> steps@ == seq![move_step(Point { x, y })],
            duration > 0 ==> steps@ == tween_path(
                current,
                Point { x, y },
                duration as int,
                linear_progress(spec_frame_count(duration as int)),
            ),
            duration > 0 ==> steps@.last() == move_step(Point { x, y }),
    {
        let steps = self.move_to_with_tween(current, x, y, duration, linear_tween);
        proof {
            if duration > 0 {
                let n = spec_frame_count(duration as int);
                let eased = choose|eased: Seq<i64>| #[trigger]
                    eased_by(linear_tween, n, eased) && steps@ == tween_path(
                        current,
                        Point { x, y },
                        duration as int,
                        eased,
                    );
                assert forall|i: int| 0 <= i <= n implies eased[i] == linear_progress(n)[i] by {
                    assert(0 <= i * 1_000_000 / n <= 1_000_000) by (nonlinear_arith)
                        requires
                            0 <= i <= n,
                            0 < n,
                    ;
                    assert(call_ensures(
                        linear_tween,
                        (spec_progress(i, n) as u32,),
                        eased[i],
                    ));
                }
                assert(eased =~= linear_progress(n));
            }
        }
        steps
    }

    /// Plans an eased move to absolute coordinates, starting from `current`,
    /// the pointer's position as it was read at the time of the call.
    ///
    /// A duration that is not positive gives an immediate move. Otherwise the
    /// motion has as many steps as [`frame_count`] says. Each frame, from the
    /// first at progress zero to the last at progress one, is a move to the
    /// point that `tween` gives for the frame's progress; between two frames
    /// lies a pause of an equal share of the duration. A tween may give
    /// eased progress below zero or above one, and the frame then lies
    /// beyond the start or the target. If the tween maps one to one, the last
    /// move is to the target itself; no corrective move is added if it does
    /// not. The plan holds every frame, so its length grows
    /// with the duration.
    pub fn move_to_with_tween<F: Fn(u32) -> i64>(
        &self,
        current: Point,
        x: i32,
        y: i32,
        duration: i64,
        tween: F,
    ) -> (steps: Vec<MouseStep>)
        requires
            forall|p: u32| p <= UNIT ==> call_requires(tween, (p,)),
        ensures
            duration <= 0 ==> steps@ == seq![move_step(Point { x, y })],
            duration > 0 ==> exists|eased: Seq<i64>| #[trigger]
                eased_by(tween, spec_frame_count(duration as int), eased) && steps@ == tween_path(
                    current,
                    Point { x, y },
                    duration as int,
                    eased,
                ),
            duration > 0 && lands_on_target(tween) ==> steps@.last() == move_step(Point { x, y }),
    {
        if duration <= 0 {
            return self.move_to(x, y);
        }
        let target = Point { x, y };
        let n = frame_count(duration);
        let delay: u64 = duration as u64 / n;
        let mut steps: Vec<MouseStep> = Vec::new();
        let ghost mut eased: Seq<i64> = Seq::empty();
        let mut i: u64 = 0;
        while i <= n
            invariant
                duration > 0,
                target == (Point { x, y }),
                n == spec_frame_count(duration as int),
                1 <= n <= 0x2_0000_0000_0000,
                delay == duration as int / n as int,
                i <= n + 1,
                eased.len() == i,
                forall|p: u32| p <= UNIT ==> call_requires(tween, (p,)),
                forall|j: int|
                    0 <= j < i ==> call_ensures(
                        tween,
                        (spec_progress(j, n as int) as u32,),
                        #[trigger] eased[j],
                    ),
                steps@.len() == (if i <= n {
                    2 * i
                } else {
                    2 * n + 1
                }),
                forall|k: int|
                    0 <= k < steps@.len() ==> #[trigger] steps@[k] == (if k % 2 == 0 {
                        move_step(frame_point(current, target, eased[k / 2] as int))
                    } else {
                        MouseStep::Pause(delay)
                    }),
            decreases n + 1 - i,
        {
            let p = progress(i, n);
            let e = tween(p);
            let px = interpolate(current.x, x, e);
            let py = interpolate(current.y, y, e);
            proof {
                eased = eased.push(e);
            }
            steps.push(MouseStep::Act(MouseAction::MoveTo { x: px, y: py }));
            if i < n {
                steps.push(MouseStep::Pause(delay));
            }
            i = i + 1;
        }
        proof {
            let path = tween_path(current, target, duration as int, eased);
            assert(eased_by(tween, n as int, eased));
            assert(steps@ =~= path);
            if lands_on_target(tween) {
                assert(spec_progress(n as int, n as int) == UNIT) by (nonlinear_arith)
                    requires
                        n > 0,
                        spec_progress(n as int, n as int) == (n as int) * 1_000_000 / (n as int),
                ;
                assert(call_ensures(tween, (UNIT,), eased[n as int]));
                lemma_tween_path_lands(current, target, duration as int, eased);
            }
        }
        steps
    }

    /// Plans an immediate move relative to `current`, the pointer's position
    /// as it was read at the time of the call.
    pub fn move_by(&self, current: Point, dx: i32, dy: i32) -> (steps: Vec<MouseStep>)
        requires
            i32::MIN <= current.x + dx <= i32::MAX,
            i32::MIN <= current.y + dy <= i32::MAX,
        ensures
            steps@ == seq![
                move_step(Point { x: (current.x + dx) as i32, y: (current.y + dy) as i32 }),
            ],
    {
        self.move_to(current.x + dx, current.y + dy)
    }

    /// Plans a move relative to `current` that takes `duration` microseconds
    /// at an even pace.
    pub fn move_by_with_duration(&self, current: Point, dx: i32, dy: i32, duration: i64) -> (steps:
        Vec<MouseStep>)
        requires
            i32::MIN <= current.x + dx <= i32::MAX,
            i32::MIN <= current.y + dy <= i32::MAX,
        ensures
            duration <= 0 ==> steps@ == seq![
                move_step(Point { x: (current.x + dx) as i32, y: (current.y + dy) as i32 }),
            ],
            duration > 0 ==> steps@ == tween_path(
                current,
                Point { x: (current.x + dx) as i32, y: (current.y + dy) as i32 },
                duration as int,
                linear_progress(spec_frame_count(duration as int)),
            ),
    {
        self.move_to_with_duration(current, current.x + dx, current.y + dy, duration)
    }

    /// Plans an eased move relative to `current`, the pointer's position as
    /// it was read once, at the time of the call: the motion is that of
    /// [`Mouse::move_to_with_tween`] to `current` displaced by `dx` and `dy`.
    pub fn move_by_with_tween<F: Fn(u32) -> i64>(
        &self,
        current: Point,
        dx: i32,
        dy: i32,
        duration: i64,
        tween: F,
    ) -> (steps: Vec<MouseStep>)
        requires
            i32::MIN <= current.x + dx <= i32::MAX,
            i32::MIN <= current.y + dy <= i32::MAX,
            forall|p: u32| p <= UNIT ==> call_requires(tween, (p,)),
        ensures
            duration <= 0 ==> steps@ == seq![
                move_step(Point { x: (current.x + dx) as i32, y: (current.y + dy) as i32 }),
            ],
            duration > 0 ==> exists|eased: Seq<i64>| #[trigger]
                eased_by(tween, spec_frame_count(duration as int), eased) && steps@ == tween_path(
                    current,
                    Point { x: (current.x + dx) as i32, y: (current.y + dy) as i32 },
                    duration as int,
                    eased,
                ),
            duration > 0 && lands_on_target(tween) ==> steps@.last() == move_step(
                Point { x: (current.x + dx) as i32, y: (current.y + dy) as i32 },
            ),
    {
        self.move_to_with_tween(current, current.x + dx, current.y + dy, duration, tween)
    }

    /// The native button that stands in for a button; every button has one.
    pub fn convert_button(&self, button: MouseButton) -> (r: MoverResult<NativeButton>)
        ensures
            r is Ok,
            r->Ok_0 == native_button(button),
    {
        match button {
            MouseButton::Left => Ok(NativeButton::Left),
            MouseButton::Right => Ok(NativeButton::Right),
            MouseButton::Middle => Ok(NativeButton::Middle),
            MouseButton::Primary => Ok(NativeButton::Left),
            MouseButton::Secondary => Ok(NativeButton::Right),
            MouseButton::Button4 => Ok(NativeButton::Left),
            MouseButton::Button5 => Ok(NativeButton::Right),
            MouseButton::Button6 => Ok(NativeButton::Left),
            MouseButton::Button7 => Ok(NativeButton::Right),
        }
    }

    /// The step that does something to a button, or to the primary button
    /// where none is named.
    fn button_action(&self, button: Option<MouseButton>, direction: Direction) -> (step:
        MouseStep)
        ensures
            step == button_step(button, direction),
    {
        let chosen = match button {
            Some(b) => b,
            None => MouseButton::default(),
        };
        let native = match self.convert_button(chosen) {
            Ok(native) => native,
            Err(_) => NativeButton::Left,
        };
        MouseStep::Act(MouseAction::Button { button: native, direction })
    }

    /// Plans `count` clicks where the pointer is, with a pause between two
    /// clicks.
    fn click_times(&self, button: Option<MouseButton>, count: u8) -> (steps: Vec<MouseStep>)
        requires
            1 <= count,
        ensures
            steps@ == clicks(button, count as int),
    {
        let mut steps: Vec<MouseStep> = Vec::new();
        steps.push(self.button_action(button, Direction::Click));
        assert(steps@ =~= clicks(button, 1));
        let mut done: u8 = 1;
        while done < count
            invariant
                1 <= done <= count,
                steps@ == clicks(button, done as int),
            decreases count - done,
        {
            steps.push(MouseStep::Pause(CLICK_PAUSE));
            steps.push(self.button_action(button, Direction::Click));
            done = done + 1;
        }
        steps
    }

    /// Plans a click where the pointer is, with the primary button where
    /// none is named.
    pub fn click(&self, button: Option<MouseButton>) -> (steps: Vec<MouseStep>)
        ensures
            steps@ == seq![button_step(button, Direction::Click)],
    {
        self.click_times(button, 1)
    }

    /// Plans a move to absolute coordinates followed by a click there.
    pub fn click_at(&self, x: i32, y: i32, button: Option<MouseButton>) -> (steps: Vec<
        MouseStep,
    >)
        ensures
            steps@ == seq![move_step(Point { x, y }), button_step(button, Direction::Click)],
    {
        let mut steps = self.move_to(x, y);
        steps.push(self.button_action(button, Direction::Click));
        assert(steps@ =~= seq![move_step(Point { x, y }), button_step(button, Direction::Click)]);
        steps
    }

    /// Plans a click of the left button.
    pub fn left_click(&self) -> (steps: Vec<MouseStep>)
        ensures
            steps@ == seq![button_step(Some(MouseButton::Left), Direction::Click)],
    {
        self.click(Some(MouseButton::Left))
    }

    /// Plans a click of the right button.
    pub fn right_click(&self) -> (steps: Vec<MouseStep>)
        ensures
            steps@ == seq![button_step(Some(MouseButton::Right), Direction::Click)],
    {
        self.click(Some(MouseButton::Right))
    }

    /// Plans a click of the middle button.
    pub fn middle_click(&self) -> (steps: Vec<MouseStep>)
        ensures
            steps@ == seq![button_step(Some(MouseButton::Middle), Direction::Click)],
    {
        self.click(Some(MouseButton::Middle))
    }

    /// Plans two clicks with a pause between them.
    pub fn double_click(&self, button: Option<MouseButton>) -> (steps: Vec<MouseStep>)
        ensures
            steps@ == seq![
                button_step(button, Direction::Click),
                MouseStep::Pause(CLICK_PAUSE),
                button_step(button, Direction::Click),
            ],
    {
        let steps = self.click_times(button, 2);
        proof {
            reveal_with_fuel(clicks, 3);
            assert(steps@ =~= seq![
                button_step(button, Direction::Click),
                MouseStep::Pause(CLICK_PAUSE),
                button_step(button, Direction::Click),
            ]);
        }
        steps
    }

    /// Plans three clicks with a pause between each two.
    pub fn triple_click(&self, button: Option<MouseButton>) -> (steps: Vec<MouseStep>)
        ensures
            steps@ == seq![
                button_step(button, Direction::Click),
                MouseStep::Pause(CLICK_PAUSE),
                button_step(button, Direction::Click),
                MouseStep::Pause(CLICK_PAUSE),
                button_step(button, Direction::Click),
            ],
    {
        let steps = self.click_times(button, 3);
        proof {
            reveal_with_fuel(clicks, 4);
            assert(steps@ =~= seq![
                button_step(button, Direction::Click),
                MouseStep::Pause(CLICK_PAUSE),
                button_step(button, Direction::Click),
                MouseStep::Pause(CLICK_PAUSE),
                button_step(button, Direction::Click),
            ]);
        }
        steps
    }

    /// Plans pressing a button down and holding it.
    pub fn mouse_down(&self, button: Option<MouseButton>) -> (steps: Vec<MouseStep>)
        ensures
            steps@ == seq![button_step(button, Direction::Press)],
    {
        let mut steps: Vec<MouseStep> = Vec::new();
        steps.push(self.button_action(button, Direction::Press));
        assert(steps@ =~= seq![button_step(button, Direction::Press)]);
        steps
    }

    /// Plans releasing a button.
    pub fn mouse_up(&self, button: Option<MouseButton>) -> (steps: Vec<MouseStep>)
        ensures
            steps@ == seq![button_step(button, Direction::Release)],
    {
        let mut steps: Vec<MouseStep> = Vec::new();
        steps.push(self.button_action(button, Direction::Release));
        assert(steps@ =~= seq![button_step(button, Direction::Release)]);
        steps
    }

    /// Plans a drag from where the pointer is to absolute coordinates.
    pub fn drag_to(&self, x: i32, y: i32, button: Option<MouseButton>) -> (steps: Vec<MouseStep>)
        ensures
            steps@ == drag_steps(Point { x, y }, button),
    {
        let mut steps: Vec<MouseStep> = Vec::new();
        steps.push(self.button_action(button, Direction::Press));
        steps.push(MouseStep::Act(MouseAction::MoveTo { x, y }));
        steps.push(self.button_action(button, Direction::Release));
        assert(steps@ =~= drag_steps(Point { x, y }, button));
        steps
    }

    /// Plans a drag relative to `current`, the pointer's position as it was
    /// read at the time of the call.
    pub fn drag_by(&self, current: Point, dx: i32, dy: i32, button: Option<MouseButton>) -> (steps:
        Vec<MouseStep>)
        requires
            i32::MIN <= current.x + dx <= i32::MAX,
            i32::MIN <= current.y + dy <= i32::MAX,
        ensures
            steps@ == drag_steps(
                Point { x: (current.x + dx) as i32, y: (current.y + dy) as i32 },
                button,
            ),
    {
        self.drag_to(current.x + dx, current.y + dy, button)
    }

    /// Plans a vertical scroll; a positive count scrolls up.
    pub fn scroll(&self, clicks: i32) -> (steps: Vec<MouseStep>)
        ensures
            steps@ == seq![MouseStep::Act(MouseAction::Scroll { clicks, axis: Axis::Vertical })],
    {
        let mut steps: Vec<MouseStep> = Vec::new();
        steps.push(MouseStep::Act(MouseAction::Scroll { clicks, axis: Axis::Vertical }));
        assert(steps@ =~= seq![
            MouseStep::Act(MouseAction::Scroll { clicks, axis: Axis::Vertical }),
        ]);
        steps
    }

    /// Plans a vertical scroll; a positive count scrolls up.
    pub fn vscroll(&self, clicks: i32) -> (steps: Vec<MouseStep>)
        ensures
            steps@ == seq![MouseStep::Act(MouseAction::Scroll { clicks, axis: Axis::Vertical })],
    {
        self.scroll(clicks)
    }

    /// Plans a horizontal scroll; a positive count scrolls right.
    pub fn hscroll(&self, clicks: i32) -> (steps: Vec<MouseStep>)
        ensures
            steps@ == seq![MouseStep::Act(MouseAction::Scroll { clicks, axis: Axis::Horizontal })],
    {
        let mut steps: Vec<MouseStep> = Vec::new();
        steps.push(MouseStep::Act(MouseAction::Scroll { clicks, axis: Axis::Horizontal }));
        assert(steps@ =~= seq![
            MouseStep::Act(MouseAction::Scroll { clicks, axis: Axis::Horizontal }),
        ]);
        steps
    }

    /// The point that lies the fraction `ratio` (in millionths) of the way
    /// from `start` to `end`: on each axis the offset is rounded toward
    /// zero, and the sum is held within the range of a coordinate.
    pub fn get_point_on_line(&self, start: Point, end: Point, ratio: i64) -> (p: Point)
        ensures
            p.x == spec_interpolate(start.x as int, end.x as int, ratio as int),
            p.y == spec_interpolate(start.y as int, end.y as int, ratio as int),
    {
        Point::new(interpolate(start.x, end.x, ratio), interpolate(start.y, end.y, ratio))
    }

    /// Plans a plain wait of `micros` microseconds; a wait that is not
    /// positive takes no step.
    pub fn sleep(&self, micros: i64) -> (steps: Vec<MouseStep>)
        ensures
            steps@ == wait_steps(micros),
    {
        let mut steps: Vec<MouseStep> = Vec::new();
        if micros > 0 {
            steps.push(MouseStep::Pause(micros as u64));
        }
        assert(steps@ =~= wait_steps(micros));
        steps
    }
}

} // verus!
