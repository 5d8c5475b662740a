//! Configuration, the failsafe monitor, the action recorder and a few
//! geometric helpers.
//!
//! Durations and points in time are counts of microseconds.

use vstd::prelude::*;
use vstd::string::*;

use crate::error::{outcome, MoverError, MoverErrorView, MoverResult, Outcome};
use crate::log_format::{export, import, spec_export, spec_import};
use crate::platform::MousePlatform;
use crate::tween::{saturate, trunc_div, UNIT};
use crate::types::{MouseButton, Point, Size};

verus! {

/// Settings of an automation session.
#[derive(Debug, Clone, PartialEq, Eq)]
pub struct MoverConfig {
    /// The pause between two actions.
    pub pause: i64,
    /// Whether the failsafe is on.
    pub failsafe: bool,
    /// The points that trigger the failsafe.
    pub failsafe_points: Vec<Point>,
    /// The shortest duration of a pointer motion.
    pub minimum_duration: i64,
    /// The shortest wait.
    pub minimum_sleep: i64,
    /// Whether screenshots are logged.
    pub log_screenshots: bool,
    /// How many logged screenshots are kept, if the number is limited.
    pub screenshot_log_limit: Option<usize>,
}

impl Default for MoverConfig {
    /// The default settings: a pause of a tenth of a second, the failsafe on
    /// with the origin as its only point (listed twice, until the screen's
    /// corners are known), motions of at least a tenth and waits of at least
    /// a twentieth of a second, and no logging of screenshots, of which ten
    /// would be kept.
    fn default() -> (config: MoverConfig)
        ensures
            config.pause == 100_000,
            config.failsafe,
            config.failsafe_points@ == seq![Point { x: 0, y: 0 }, Point { x: 0, y: 0 }],
            config.minimum_duration == 100_000,
            config.minimum_sleep == 50_000,
            !config.log_screenshots,
            config.screenshot_log_limit == Some(10usize),
    {
        let mut points: Vec<Point> = Vec::new();
        points.push(Point::new(0, 0));
        points.push(Point::new(0, 0));
        assert(points@ =~= seq![Point { x: 0, y: 0 }, Point { x: 0, y: 0 }]);
        MoverConfig {
            pause: 100_000,
            failsafe: true,
            failsafe_points: points,
            minimum_duration: 100_000,
            minimum_sleep: 50_000,
            log_screenshots: false,
            screenshot_log_limit: Some(10),
        }
    }
}

/// The four corners of a screen of the given size: top-left, top-right,
/// bottom-left, bottom-right.
pub open spec fn corners(size: Size) -> Seq<Point> {
    seq![
        Point { x: 0, y: 0 },
        Point { x: (size.width - 1) as i32, y: 0 },
        Point { x: 0, y: (size.height - 1) as i32 },
        Point { x: (size.width - 1) as i32, y: (size.height - 1) as i32 },
    ]
}

/// Whether two points are neighbours: distinct, and at most one pixel apart
/// on each axis.
pub open spec fn adjacent(a: Point, b: Point) -> bool {
    &&& a != b
    &&& -1 <= a.x - b.x <= 1
    &&& -1 <= a.y - b.y <= 1
}

/// The view of the error that asks to abandon the automation run.
pub open spec fn failsafe_triggered() -> MoverErrorView {
    MoverErrorView::FailsafeTriggered("Mouse moved to failsafe position"@)
}

/// Lets a runaway script be stopped: while it is enabled, the pointer
/// resting exactly on one of its sentinel points asks for the whole
/// automation run to be abandoned.
///
/// The monitor does not watch the screen's resolution: after a change the
/// caller sets the sentinel points anew.
#[derive(Debug, Clone, PartialEq, Eq)]
pub struct FailsafeManager {
    config: MoverConfig,
}

impl FailsafeManager {
    /// The settings that the monitor works with.
    pub closed spec fn config(&self) -> MoverConfig {
        self.config
    }

    /// Whether the failsafe is on.
    pub open spec fn enabled(&self) -> bool {
        self.config().failsafe
    }

    /// The sentinel points, in order.
    pub open spec fn sentinels(&self) -> Seq<Point> {
        self.config().failsafe_points@
    }

    /// What the monitor says to the pointer being at `position`.
    pub open spec fn spec_verdict(&self, position: Point) -> Outcome<()> {
        if self.enabled() && self.sentinels().contains(position) {
            Err(failsafe_triggered())
        } else {
            Ok(())
        }
    }

    /// What a check yields for what the backend answered when it was asked
    /// for the pointer's position: a failed reading is handed on, a position
    /// is judged.
    pub open spec fn spec_check(&self, reading: MoverResult<Point>) -> Outcome<()> {
        match reading {
            Ok(position) => self.spec_verdict(position),
            Err(e) => Err(e@),
        }
    }

    /// Creates the monitor of a session from the session's settings.
    pub fn new(config: MoverConfig) -> (manager: FailsafeManager)
        ensures
            manager.config() == config,
    {
        FailsafeManager { config }
    }

    /// Judges a pointer position: with the failsafe on, a position that
    /// equals a sentinel point triggers it; any other position does not, nor
    /// does any position with the failsafe off.
    pub fn check_position(&self, position: Point) -> (r: MoverResult<()>)
        ensures
            outcome(r) == self.spec_verdict(position),
    {
        if !self.config.failsafe {
            return Ok(());
        }
        let points = &self.config.failsafe_points;
        let mut i: usize = 0;
        while i < points.len()
            invariant
                self.enabled(),
                i <= points@.len(),
                points@ == self.sentinels(),
                forall|j: int| 0 <= j < i ==> points@[j] != position,
            decreases points@.len() - i,
        {
            if points[i].x == position.x && points[i].y == position.y {
                assert(self.sentinels()[i as int] == position);
                return Err(
                    MoverError::FailsafeTriggered(
                        String::from_str("Mouse moved to failsafe position"),
                    ),
                );
            }
            i = i + 1;
        }
        Ok(())
    }

    /// Checks whether the failsafe is triggered.
    ///
    /// With the failsafe off the check succeeds without asking the backend.
    /// With it on, the backend is asked once for the pointer's position: a
    /// failed reading is handed on, and a position is judged as
    /// [`FailsafeManager::check_position`] does. The monitor does not retry.
    pub fn check<P: MousePlatform>(&self, platform: &P) -> (r: MoverResult<()>)
        ensures
            !self.enabled() ==> r is Ok,
            self.enabled() ==> exists|reading: MoverResult<Point>| #[trigger]
                call_ensures(P::get_position, (platform,), reading) && outcome(r)
                    == self.spec_check(reading),
    {
        if !self.config.failsafe {
            return Ok(());
        }
        let reading = platform.get_position();
        match reading {
            Ok(position) => self.check_position(position),
            Err(e) => Err(e),
        }
    }

    /// Sets the sentinel points to the four corners of a screen of the given
    /// size. Nothing else of the settings changes.
    pub fn update_failsafe_points(&mut self, screen_size: Size)
        requires
            screen_size.width > i32::MIN,
            screen_size.height > i32::MIN,
        ensures
            final(self).sentinels() == corners(screen_size),
            final(self).enabled() == old(self).enabled(),
            final(self).config().pause == old(self).config().pause,
            final(self).config().minimum_duration == old(self).config().minimum_duration,
            final(self).config().minimum_sleep == old(self).config().minimum_sleep,
            final(self).config().log_screenshots == old(self).config().log_screenshots,
            final(self).config().screenshot_log_limit == old(self).config().screenshot_log_limit,
    {
        let mut points: Vec<Point> = Vec::new();
        points.push(Point::new(0, 0));
        points.push(Point::new(screen_size.width - 1, 0));
        points.push(Point::new(0, screen_size.height - 1));
        points.push(Point::new(screen_size.width - 1, screen_size.height - 1));
        assert(points@ =~= corners(screen_size));
        self.config.failsafe_points = points;
    }
}

/// With the failsafe off, no position triggers it, a sentinel point
/// included.
pub proof fn lemma_disabled_never_triggers(manager: FailsafeManager, position: Point)
    requires
        !manager.enabled(),
    ensures
        manager.spec_verdict(position) == Ok::<(), MoverErrorView>(()),
        manager.spec_check(Ok(position)) == Ok::<(), MoverErrorView>(()),
{
}

/// With the failsafe on, a position triggers it if and only if it equals a
/// sentinel point.
pub proof fn lemma_enabled_triggers_on_sentinels(manager: FailsafeManager, position: Point)
    requires
        manager.enabled(),
    ensures
        manager.sentinels().contains(position) <==> manager.spec_verdict(position) == Err::<
            (),
            MoverErrorView,
        >(failsafe_triggered()),
        !manager.sentinels().contains(position) <==> manager.spec_verdict(position) == Ok::<
            (),
            MoverErrorView,
        >(()),
{
}

/// With the corners of a screen as sentinel points, a position one pixel
/// away from a corner does not trigger the failsafe, provided that neither
/// dimension of the screen is zero or two: on such a screen two corners are
/// neighbours.
pub proof fn lemma_corner_neighbours_safe(
    manager: FailsafeManager,
    size: Size,
    corner: Point,
    position: Point,
)
    requires
        manager.sentinels() == corners(size),
        size.width > i32::MIN,
        size.height > i32::MIN,
        size.width != 0 && size.width != 2,
        size.height != 0 && size.height != 2,
        corners(size).contains(corner),
        adjacent(position, corner),
    ensures
        manager.spec_verdict(position) == Ok::<(), MoverErrorView>(()),
{
    let c = corners(size);
    assert(c.len() == 4);
    if c.contains(position) {
        let i = choose|i: int| 0 <= i < c.len() && c[i] == position;
        let j = choose|j: int| 0 <= j < c.len() && c[j] == corner;
        assert(false);
    }
}

/// One recorded action, with what is needed to replay it.
#[derive(Debug, Clone, PartialEq, Eq)]
pub enum RecordedAction {
    MouseMove { x: i32, y: i32, duration: i64 },
    MouseClick { x: i32, y: i32, button: MouseButton },
    MouseDrag { from: Point, to: Point, button: MouseButton },
    KeyPress { key: String },
    KeyType { text: String },
    Screenshot { path: String },
    Wait { duration: i64 },
}

/// What a [`RecordedAction`] holds, with its text as sequences of characters.
pub enum RecordedActionView {
    MouseMove { x: i32, y: i32, duration: i64 },
    MouseClick { x: i32, y: i32, button: MouseButton },
    MouseDrag { from: Point, to: Point, button: MouseButton },
    KeyPress { key: Seq<char> },
    KeyType { text: Seq<char> },
    Screenshot { path: Seq<char> },
    Wait { duration: i64 },
}

impl View for RecordedAction {
    type V = RecordedActionView;

    open spec fn view(&self) -> RecordedActionView {
        match *self {
            RecordedAction::MouseMove { x, y, duration } => RecordedActionView::MouseMove {
                x,
                y,
                duration,
            },
            RecordedAction::MouseClick { x, y, button } => RecordedActionView::MouseClick {
                x,
                y,
                button,
            },
            RecordedAction::MouseDrag { from, to, button } => RecordedActionView::MouseDrag {
                from,
                to,
                button,
            },
            RecordedAction::KeyPress { key } => RecordedActionView::KeyPress { key: key@ },
            RecordedAction::KeyType { text } => RecordedActionView::KeyType { text: text@ },
            RecordedAction::Screenshot { path } => RecordedActionView::Screenshot { path: path@ },
            RecordedAction::Wait { duration } => RecordedActionView::Wait { duration },
        }
    }
}

/// The views of a sequence of recorded actions.
pub open spec fn actions_view(actions: Seq<RecordedAction>) -> Seq<RecordedActionView> {
    Seq::new(actions.len(), |i: int| actions[i]@)
}

/// An ordered log of actions. Entries are appended and never changed.
#[derive(Debug, Clone, PartialEq, Eq)]
pub struct ActionRecorder {
    actions: Vec<RecordedAction>,
    started: u64,
}

impl ActionRecorder {
    /// The recorded actions, oldest first.
    pub closed spec fn log(&self) -> Seq<RecordedActionView> {
        actions_view(self.actions@)
    }

    /// The point in time at which the recorder was created.
    pub closed spec fn started(&self) -> u64 {
        self.started
    }

    /// Creates an empty recorder at the point in time `now`.
    pub fn new(now: u64) -> (recorder: ActionRecorder)
        ensures
            recorder.log() == Seq::<RecordedActionView>::empty(),
            recorder.started() == now,
    {
        let recorder = ActionRecorder { actions: Vec::new(), started: now };
        assert(recorder.log() =~= Seq::<RecordedActionView>::empty());
        recorder
    }

    /// Appends one entry to the log.
    fn record(&mut self, action: RecordedAction)
        ensures
            final(self).log() == old(self).log().push(action@),
            final(self).started() == old(self).started(),
    {
        self.actions.push(action);
        assert(self.log() =~= old(self).log().push(action@));
    }

    /// Records a pointer move.
    pub fn record_mouse_move(&mut self, x: i32, y: i32, duration: i64)
        ensures
            final(self).log() == old(self).log().push(
                RecordedActionView::MouseMove { x, y, duration },
            ),
            final(self).started() == old(self).started(),
    {
        self.record(RecordedAction::MouseMove { x, y, duration });
    }

    /// Records a click.
    pub fn record_mouse_click(&mut self, x: i32, y: i32, button: MouseButton)
        ensures
            final(self).log() == old(self).log().push(
                RecordedActionView::MouseClick { x, y, button },
            ),
            final(self).started() == old(self).started(),
    {
        self.record(RecordedAction::MouseClick { x, y, button });
    }

    /// Records a drag.
    pub fn record_mouse_drag(&mut self, from: Point, to: Point, button: MouseButton)
        ensures
            final(self).log() == old(self).log().push(
                RecordedActionView::MouseDrag { from, to, button },
            ),
            final(self).started() == old(self).started(),
    {
        self.record(RecordedAction::MouseDrag { from, to, button });
    }

    /// Records a key press.
    pub fn record_key_press(&mut self, key: String)
        ensures
            final(self).log() == old(self).log().push(RecordedActionView::KeyPress { key: key@ }),
            final(self).started() == old(self).started(),
    {
        self.record(RecordedAction::KeyPress { key });
    }

    /// Records a typed text.
    pub fn record_key_type(&mut self, text: String)
        ensures
            final(self).log() == old(self).log().push(RecordedActionView::KeyType { text: text@ }),
            final(self).started() == old(self).started(),
    {
        self.record(RecordedAction::KeyType { text });
    }

    /// Records a screenshot.
    pub fn record_screenshot(&mut self, path: String)
        ensures
            final(self).log() == old(self).log().push(
                RecordedActionView::Screenshot { path: path@ },
            ),
            final(self).started() == old(self).started(),
    {
        self.record(RecordedAction::Screenshot { path });
    }

    /// Records a wait.
    pub fn record_wait(&mut self, duration: i64)
        ensures
            final(self).log() == old(self).log().push(RecordedActionView::Wait { duration }),
            final(self).started() == old(self).started(),
    {
        self.record(RecordedAction::Wait { duration });
    }

    /// The recorded actions, oldest first.
    pub fn get_actions(&self) -> (actions: &[RecordedAction])
        ensures
            actions_view(actions@) == self.log(),
    {
        self.actions.as_slice()
    }

    /// Writes the log as text: a JSON array with one object for each
    /// action, in the order of recording. Every text that an action holds
    /// can be written, so this does not fail.
    pub fn export_json(&self) -> (r: MoverResult<String>)
        ensures
            r matches Ok(text) && text@ == spec_export(self.log()),
    {
        Ok(export(&self.actions))
    }

    /// Reads a log from a text laid out as [`ActionRecorder::export_json`]
    /// lays it out, into a recorder created at the point in time `now`. A
    /// text that is laid out otherwise is refused.
    pub fn import_json(now: u64, text: &str) -> (r: MoverResult<ActionRecorder>)
        ensures
            match spec_import(text@) {
                Some(log) => r matches Ok(recorder) && recorder.log() == log && recorder.started()
                    == now,
                None => r matches Err(e) && e@ == MoverErrorView::Other(
                    "Failed to parse actions"@,
                ),
            },
    {
        match import(text) {
            Some(actions) => Ok(ActionRecorder { actions, started: now }),
            None => Err(MoverError::Other(String::from_str("Failed to parse actions"))),
        }
    }

    /// The time that has passed between the recorder's creation and the
    /// point in time `now`. It is not the sum of the recorded durations: the
    /// gaps between the recorded actions count too.
    pub fn get_total_time(&self, now: u64) -> (elapsed: u64)
        ensures
            now >= self.started() ==> elapsed == now - self.started(),
            now < self.started() ==> elapsed == 0,
    {
        if now >= self.started {
            now - self.started
        } else {
            0
        }
    }
}

/// The length of a wait of `micros` microseconds: none unless it is
/// positive.
pub fn sleep(micros: i64) -> (pause: Option<u64>)
    ensures
        micros > 0 ==> pause == Some(micros as u64),
        micros <= 0 ==> pause is None,
{
    if micros > 0 {
        Some(micros as u64)
    } else {
        None
    }
}

/// The coordinate that lies the fraction `n` (in millionths) of the way from
/// `a` to `b`: the exact position is rounded toward zero and held within
/// the range of a coordinate.
pub open spec fn spec_coordinate_on_line(a: int, b: int, n: int) -> int {
    saturate(trunc_div(a * UNIT + (b - a) * n, UNIT as int))
}

/// The point that lies the fraction `n` (in millionths) of the way from the
/// first point to the second.
pub open spec fn spec_point_on_line(x1: i32, y1: i32, x2: i32, y2: i32, n: i64) -> Point {
    Point {
        x: spec_coordinate_on_line(x1 as int, x2 as int, n as int) as i32,
        y: spec_coordinate_on_line(y1 as int, y2 as int, n as int) as i32,
    }
}

/// At the fraction zero the point on a line is its start, at the fraction
/// one its end.
pub proof fn lemma_point_on_line_endpoints(x1: i32, y1: i32, x2: i32, y2: i32)
    ensures
        spec_point_on_line(x1, y1, x2, y2, 0) == (Point { x: x1, y: y1 }),
        spec_point_on_line(x1, y1, x2, y2, UNIT as i64) == (Point { x: x2, y: y2 }),
{
    lemma_coordinate_on_line_endpoints(x1, x2);
    lemma_coordinate_on_line_endpoints(y1, y2);
}

/// At the fraction zero the coordinate on a line is its start, at the
/// fraction one its end.
proof fn lemma_coordinate_on_line_endpoints(a: i32, b: i32)
    ensures
        spec_coordinate_on_line(a as int, b as int, 0) == a,
        spec_coordinate_on_line(a as int, b as int, UNIT as int) == b,
{
    let d = b - a;
    assert(d * 0 == 0);
    assert(a * 1_000_000 + d * 1_000_000 == b * 1_000_000);
    assert(a * 1_000_000 / 1_000_000 == a);
    assert((-(a * 1_000_000)) / 1_000_000 == -a);
    assert(b * 1_000_000 / 1_000_000 == b);
    assert((-(b * 1_000_000)) / 1_000_000 == -b);
}

/// One coordinate of a point on a line.
fn coordinate_on_line(a: i32, b: i32, n: i64) -> (c: i32)
    ensures
        c == spec_coordinate_on_line(a as int, b as int, n as int),
{
    let d: i128 = b as i128 - a as i128;
    let k: i128 = n as i128;
    assert(-0x1_0000_0000_0000_0000_0000_0000 <= d * k <= 0x1_0000_0000_0000_0000_0000_0000)
        by (nonlinear_arith)
        requires
            -0x1_0000_0000 <= d <= 0x1_0000_0000,
            -0x1_0000_0000_0000_0000 <= k <= 0x1_0000_0000_0000_0000,
    ;
    let exact: i128 = a as i128 * 1_000_000 + d * k;
    let whole: i128 = exact / 1_000_000;
    if whole < -2147483648 {
        i32::MIN
    } else if whole > 2147483647 {
        i32::MAX
    } else {
        whole as i32
    }
}

/// The point that lies the fraction `n` (in millionths) of the way from
/// `(x1, y1)` to `(x2, y2)`. A fraction below zero or above one
/// extrapolates.
pub fn get_point_on_line(x1: i32, y1: i32, x2: i32, y2: i32, n: i64) -> (p: Point)
    ensures
        p == spec_point_on_line(x1, y1, x2, y2, n),
{
    Point::new(coordinate_on_line(x1, x2, n), coordinate_on_line(y1, y2, n))
}

/// Whether a point lies in the rectangle with the given top-left corner,
/// width and height; the right and the bottom edge are outside.
pub open spec fn spec_point_in_rect(point: Point, x: i32, y: i32, width: u32, height: u32) -> bool {
    &&& x <= point.x < x + width
    &&& y <= point.y < y + height
}

/// Whether a point lies in the rectangle with the given top-left corner,
/// width and height.
pub fn point_in_rect(point: &Point, x: i32, y: i32, width: u32, height: u32) -> (inside: bool)
    ensures
        inside == spec_point_in_rect(*point, x, y, width, height),
{
    let px: i64 = point.x as i64;
    let py: i64 = point.y as i64;
    px >= x as i64 && px < x as i64 + width as i64 && py >= y as i64 && py < y as i64
        + height as i64
}

} // verus!
