//! Key names and keyboard work.
//!
//! [`convert_key`] resolves a human-readable key name to a [`Key`]. The
//! methods of [`Keyboard`] plan keyboard work: each returns a
//! [`KeyboardPlan`], the steps for the backend to carry out in order and the
//! result to report once they are done. A driver carries out the steps,
//! stops at the first one that the backend fails and reports that failure
//! with [`KeyboardStep::failure`].

use vstd::prelude::*;
use vstd::string::*;

use crate::error::{
    outcome, unsupported, wrapped_text, MoverError, MoverErrorView, MoverResult, Outcome,
};
use crate::text::{lowercase, push_char, text_eq, to_lowercase};
use crate::types::Direction;

verus! {

/// A key of the keyboard, independent of any backend.
#[derive(Debug, Clone, Copy, PartialEq, Eq, Hash, Structural)]
pub enum Key {
    /// The key that produces the given character.
    Unicode(char),
    Return,
    Space,
    Tab,
    Escape,
    Backspace,
    Delete,
    Home,
    End,
    PageUp,
    PageDown,
    UpArrow,
    DownArrow,
    LeftArrow,
    RightArrow,
    F1,
    F2,
    F3,
    F4,
    F5,
    F6,
    F7,
    F8,
    F9,
    F10,
    F11,
    F12,
    Control,
    Alt,
    Shift,
    Meta,
}

/// Whether the character is one of the punctuation marks and symbols that
/// name their own key: every printable ASCII character that is neither a
/// letter, nor a digit, nor the space.
pub open spec fn is_key_symbol(c: char) -> bool {
    c == '!' || c == '@' || c == '#' || c == '$' || c == '%' || c == '^' || c == '&' || c == '*'
        || c == '(' || c == ')' || c == '-' || c == '_' || c == '=' || c == '+' || c == '['
        || c == ']' || c == '{' || c == '}' || c == '\\' || c == '|' || c == ';' || c == ':'
        || c == '\'' || c == '"' || c == ',' || c == '.' || c == '/' || c == '?' || c == '`'
        || c == '~' || c == '<' || c == '>'
}

/// Whether the character names its own key: a lower-case letter `a` to `z`,
/// a digit, or a symbol.
pub open spec fn is_key_char(c: char) -> bool {
    ('a' <= c && c <= 'z') || ('0' <= c && c <= '9') || is_key_symbol(c)
}

/// The key that a lower-case name stands for, if it stands for one.
pub open spec fn key_named(name: Seq<char>) -> Option<Key> {
    if name.len() == 1 && is_key_char(name[0]) {
        Some(Key::Unicode(name[0]))
    } else if name == "enter"@ || name == "return"@ {
        Some(Key::Return)
    } else if name == "space"@ {
        Some(Key::Space)
    } else if name == "tab"@ {
        Some(Key::Tab)
    } else if name == "escape"@ || name == "esc"@ {
        Some(Key::Escape)
    } else if name == "backspace"@ {
        Some(Key::Backspace)
    } else if name == "delete"@ || name == "del"@ {
        Some(Key::Delete)
    } else if name == "home"@ {
        Some(Key::Home)
    } else if name == "end"@ {
        Some(Key::End)
    } else if name == "pageup"@ || name == "pgup"@ {
        Some(Key::PageUp)
    } else if name == "pagedown"@ || name == "pgdn"@ {
        Some(Key::PageDown)
    } else if name == "up"@ {
        Some(Key::UpArrow)
    } else if name == "down"@ {
        Some(Key::DownArrow)
    } else if name == "left"@ {
        Some(Key::LeftArrow)
    } else if name == "right"@ {
        Some(Key::RightArrow)
    } else if name == "f1"@ {
        Some(Key::F1)
    } else if name == "f2"@ {
        Some(Key::F2)
    } else if name == "f3"@ {
        Some(Key::F3)
    } else if name == "f4"@ {
        Some(Key::F4)
    } else if name == "f5"@ {
        Some(Key::F5)
    } else if name == "f6"@ {
        Some(Key::F6)
    } else if name == "f7"@ {
        Some(Key::F7)
    } else if name == "f8"@ {
        Some(Key::F8)
    } else if name == "f9"@ {
        Some(Key::F9)
    } else if name == "f10"@ {
        Some(Key::F10)
    } else if name == "f11"@ {
        Some(Key::F11)
    } else if name == "f12"@ {
        Some(Key::F12)
    } else if name == "ctrl"@ || name == "control"@ {
        Some(Key::Control)
    } else if name == "alt"@ {
        Some(Key::Alt)
    } else if name == "shift"@ {
        Some(Key::Shift)
    } else if name == "meta"@ || name == "win"@ || name == "command"@ {
        Some(Key::Meta)
    } else {
        None
    }
}

/// The key that a name stands for, whatever its case.
pub open spec fn key_of(name: Seq<char>) -> Option<Key> {
    key_named(lowercase(name))
}

/// The view of the error for a name that stands for no key: it carries the
/// name as it was given.
pub open spec fn unsupported_key(name: Seq<char>) -> MoverErrorView {
    unsupported("Unsupported key: "@ + name)
}

/// What looking up a lower-case name yields: its key, or the error that
/// carries the name as the caller wrote it.
pub open spec fn key_lookup(lower: Seq<char>, given: Seq<char>) -> Outcome<Key> {
    match key_named(lower) {
        Some(key) => Ok(key),
        None => Err(unsupported_key(given)),
    }
}

/// What converting a key name yields.
pub open spec fn spec_convert_key(name: Seq<char>) -> Outcome<Key> {
    key_lookup(lowercase(name), name)
}

/// The symbols that name their own key are the whole of ASCII's punctuation:
/// the printable ASCII characters other than letters, digits and the space.
pub proof fn lemma_key_symbols_are_ascii_punctuation(c: char)
    ensures
        is_key_symbol(c) <==> (0x21 <= c as u32 <= 0x7e && !('0' <= c && c <= '9') && !('a' <= c
            && c <= 'z') && !('A' <= c && c <= 'Z')),
{
}

/// Names that agree in lower case stand for the same key.
pub proof fn lemma_convert_key_ignores_case(a: Seq<char>, b: Seq<char>)
    requires
        lowercase(a) == lowercase(b),
    ensures
        key_of(a) == key_of(b),
        spec_convert_key(a) is Ok <==> spec_convert_key(b) is Ok,
        spec_convert_key(a) is Ok ==> spec_convert_key(a) == spec_convert_key(b),
{
}

/// Converting a name never does anything but yield a key or the
/// unsupported-operation error that carries the name.
pub proof fn lemma_convert_key_total(name: Seq<char>)
    ensures
        spec_convert_key(name) is Ok || spec_convert_key(name) == Err::<Key, MoverErrorView>(
            unsupported_key(name),
        ),
{
}

/// Whether the character is one of the symbols that name their own key.
fn key_symbol(c: char) -> (b: bool)
    ensures
        b == is_key_symbol(c),
{
    c == '!' || c == '@' || c == '#' || c == '$' || c == '%' || c == '^' || c == '&' || c == '*'
        || c == '(' || c == ')' || c == '-' || c == '_' || c == '=' || c == '+' || c == '['
        || c == ']' || c == '{' || c == '}' || c == '\\' || c == '|' || c == ';' || c == ':'
        || c == '\'' || c == '"' || c == ',' || c == '.' || c == '/' || c == '?' || c == '`'
        || c == '~' || c == '<' || c == '>'
}

/// The key of a named (not single-character) entry of the table.
fn named_entry(name: &str) -> (key: Option<Key>)
    ensures
        !(name@.len() == 1 && is_key_char(name@[0])) ==> key == key_named(name@),
{
    if text_eq(name, "enter") || text_eq(name, "return") {
        Some(Key::Return)
    } else if text_eq(name, "space") {
        Some(Key::Space)
    } else if text_eq(name, "tab") {
        Some(Key::Tab)
    } else if text_eq(name, "escape") || text_eq(name, "esc") {
        Some(Key::Escape)
    } else if text_eq(name, "backspace") {
        Some(Key::Backspace)
    } else if text_eq(name, "delete") || text_eq(name, "del") {
        Some(Key::Delete)
    } else if text_eq(name, "home") {
        Some(Key::Home)
    } else if text_eq(name, "end") {
        Some(Key::End)
    } else if text_eq(name, "pageup") || text_eq(name, "pgup") {
        Some(Key::PageUp)
    } else if text_eq(name, "pagedown") || text_eq(name, "pgdn") {
        Some(Key::PageDown)
    } else if text_eq(name, "up") {
        Some(Key::UpArrow)
    } else if text_eq(name, "down") {
        Some(Key::DownArrow)
    } else if text_eq(name, "left") {
        Some(Key::LeftArrow)
    } else if text_eq(name, "right") {
        Some(Key::RightArrow)
    } else if text_eq(name, "f1") {
        Some(Key::F1)
    } else if text_eq(name, "f2") {
        Some(Key::F2)
    } else if text_eq(name, "f3") {
        Some(Key::F3)
    } else if text_eq(name, "f4") {
        Some(Key::F4)
    } else if text_eq(name, "f5") {
        Some(Key::F5)
    } else if text_eq(name, "f6") {
        Some(Key::F6)
    } else if text_eq(name, "f7") {
        Some(Key::F7)
    } else if text_eq(name, "f8") {
        Some(Key::F8)
    } else if text_eq(name, "f9") {
        Some(Key::F9)
    } else if text_eq(name, "f10") {
        Some(Key::F10)
    } else if text_eq(name, "f11") {
        Some(Key::F11)
    } else if text_eq(name, "f12") {
        Some(Key::F12)
    } else if text_eq(name, "ctrl") || text_eq(name, "control") {
        Some(Key::Control)
    } else if text_eq(name, "alt") {
        Some(Key::Alt)
    } else if text_eq(name, "shift") {
        Some(Key::Shift)
    } else if text_eq(name, "meta") || text_eq(name, "win") || text_eq(name, "command") {
        Some(Key::Meta)
    } else {
        None
    }
}

/// Looks a lower-case name up in the table of keys.
///
/// Yields the key that `lower` stands for. A name outside the table is
/// refused with the unsupported-operation error that carries `given`, the
/// name as the caller wrote it.
pub fn key_from_lowercase(lower: &str, given: &str) -> (r: MoverResult<Key>)
    ensures
        outcome(r) == key_lookup(lower@, given@),
{
    let mut found: Option<Key> = None;
    if lower.unicode_len() == 1 {
        let c = lower.get_char(0);
        if (c >= 'a' && c <= 'z') || (c >= '0' && c <= '9') || key_symbol(c) {
            found = Some(Key::Unicode(c));
        }
    }
    if found.is_none() {
        found = named_entry(lower);
    }
    match found {
        Some(key) => Ok(key),
        None => {
            let mut message = String::from_str("Unsupported key: ");
            message.append(given);
            Err(MoverError::unsupported_operation(message))
        },
    }
}

/// Resolves a key name to its key, ignoring case.
///
/// The names are the single letters and digits, the symbols, the named keys
/// (`enter` or `return`, `space`, `tab`, `escape` or `esc`, `backspace`,
/// `delete` or `del`, `home`, `end`, `pageup` or `pgup`, `pagedown` or
/// `pgdn`), the arrows (`up`, `down`, `left`, `right`), `f1` to `f12`, and
/// the modifiers (`ctrl` or `control`, `alt`, `shift`, `meta`, `win` or
/// `command`). Any other name is refused with the unsupported-operation
/// error that carries the name as it was given.
pub fn convert_key(key: &str) -> (r: MoverResult<Key>)
    ensures
        outcome(r) == spec_convert_key(key@),
{
    let lower = to_lowercase(key);
    key_from_lowercase(lower.as_str(), key)
}

/// One thing for a backend to do with the keyboard.
#[derive(Debug, Clone, PartialEq, Eq)]
pub enum KeyboardAction {
    /// Type a text as fast as the backend can.
    Text(String),
    /// Press, release or click one key.
    Key { key: Key, direction: Direction },
}

/// What a [`KeyboardAction`] holds, with its text as a sequence of characters.
pub enum KeyboardActionView {
    Text(Seq<char>),
    Key { key: Key, direction: Direction },
}

impl View for KeyboardAction {
    type V = KeyboardActionView;

    open spec fn view(&self) -> KeyboardActionView {
        match *self {
            KeyboardAction::Text(text) => KeyboardActionView::Text(text@),
            KeyboardAction::Key { key, direction } => KeyboardActionView::Key { key, direction },
        }
    }
}

/// An action together with the words that describe it when it fails.
#[derive(Debug, Clone, PartialEq, Eq)]
pub struct KeyboardCommand {
    pub action: KeyboardAction,
    pub on_failure: String,
}

/// What a [`KeyboardCommand`] holds.
pub struct KeyboardCommandView {
    pub action: KeyboardActionView,
    pub on_failure: Seq<char>,
}

impl View for KeyboardCommand {
    type V = KeyboardCommandView;

    open spec fn view(&self) -> KeyboardCommandView {
        KeyboardCommandView { action: self.action@, on_failure: self.on_failure@ }
    }
}

impl KeyboardCommand {
    /// The error to report when the backend fails this command: what was
    /// attempted, then what the backend said.
    pub fn failure(&self, native: &str) -> (e: MoverError)
        ensures
            e@ == unsupported(wrapped_text(self.on_failure@, native@)),
    {
        MoverError::backend_failure(self.on_failure.as_str(), native)
    }
}

/// One step of keyboard work.
#[derive(Debug, Clone, PartialEq, Eq)]
pub enum KeyboardStep {
    /// Have the backend carry out a command.
    Act(KeyboardCommand),
    /// Wait for the given number of microseconds.
    Pause(u64),
}

/// What a [`KeyboardStep`] holds.
pub enum KeyboardStepView {
    Act(KeyboardCommandView),
    Pause(u64),
}

impl View for KeyboardStep {
    type V = KeyboardStepView;

    open spec fn view(&self) -> KeyboardStepView {
        match *self {
            KeyboardStep::Act(command) => KeyboardStepView::Act(command@),
            KeyboardStep::Pause(micros) => KeyboardStepView::Pause(micros),
        }
    }
}

/// The views of a sequence of steps.
pub open spec fn steps_view(steps: Seq<KeyboardStep>) -> Seq<KeyboardStepView> {
    Seq::new(steps.len(), |i: int| steps[i]@)
}

/// Planned keyboard work: the steps to carry out in order, and the result to
/// report once all of them have been carried out.
#[derive(Debug, PartialEq, Eq)]
pub struct KeyboardPlan {
    pub steps: Vec<KeyboardStep>,
    pub outcome: MoverResult<()>,
}

/// What a [`KeyboardPlan`] holds.
pub struct KeyboardPlanView {
    pub steps: Seq<KeyboardStepView>,
    pub outcome: Outcome<()>,
}

impl View for KeyboardPlan {
    type V = KeyboardPlanView;

    open spec fn view(&self) -> KeyboardPlanView {
        KeyboardPlanView { steps: steps_view(self.steps@), outcome: outcome(self.outcome) }
    }
}

/// The pause between the keys of a sequence, and between pressing and
/// releasing the keys of a hotkey: fifty milliseconds, in microseconds.
pub const KEY_PAUSE: u64 = 50_000;

/// The names that a slice of texts holds.
pub open spec fn names_of(keys: Seq<&str>) -> Seq<Seq<char>> {
    Seq::new(keys.len(), |i: int| keys[i]@)
}

/// The step that does something to one key.
pub open spec fn key_step(key: Key, direction: Direction, on_failure: Seq<char>)
    -> KeyboardStepView {
    KeyboardStepView::Act(
        KeyboardCommandView { action: KeyboardActionView::Key { key, direction }, on_failure },
    )
}

/// The pause that follows an action: none unless the interval is positive.
pub open spec fn pause_steps(interval: i64) -> Seq<KeyboardStepView> {
    if interval > 0 {
        seq![KeyboardStepView::Pause(interval as u64)]
    } else {
        Seq::empty()
    }
}

/// `unit` repeated `times` times.
pub open spec fn repeated(unit: Seq<KeyboardStepView>, times: int) -> Seq<KeyboardStepView>
    decreases times,
{
    if times <= 0 {
        Seq::empty()
    } else {
        repeated(unit, times - 1) + unit
    }
}

/// The words that describe doing something to the key that the user called
/// `name`.
pub open spec fn named_failure(prefix: Seq<char>, name: Seq<char>) -> Seq<char> {
    prefix + name + "'"@
}

/// The words that describe typing one character.
pub open spec fn typing_failure(c: char) -> Seq<char> {
    "Failed to type character '"@.push(c) + "'"@
}

/// The least index below `n` whose name stands for no key, or `n` if each of
/// the first `n` names stands for one.
pub open spec fn unknown_index(names: Seq<Seq<char>>, n: int) -> int
    decreases n,
{
    if n <= 0 {
        0
    } else {
        let k = unknown_index(names, n - 1);
        if k < n - 1 {
            k
        } else if key_of(names[n - 1]) is None {
            n - 1
        } else {
            n
        }
    }
}

/// Once a name that stands for no key has been met, it stays the first one.
pub proof fn lemma_unknown_index_settles(names: Seq<Seq<char>>, k: int, n: int)
    requires
        0 <= k < n,
        unknown_index(names, k) == k,
        key_of(names[k]) is None,
    ensures
        unknown_index(names, n) == k,
    decreases n,
{
    if n > k + 1 {
        lemma_unknown_index_settles(names, k, n - 1);
    }
}

/// The steps that click the first `n` keys, with a pause after each.
pub open spec fn clicked(names: Seq<Seq<char>>, n: int) -> Seq<KeyboardStepView>
    decreases n,
{
    if n <= 0 {
        Seq::empty()
    } else {
        clicked(names, n - 1).push(
            key_step(
                key_of(names[n - 1])->Some_0,
                Direction::Click,
                named_failure("Failed to press key '"@, names[n - 1]),
            ),
        ).push(KeyboardStepView::Pause(KEY_PAUSE))
    }
}

/// The steps that press the first `n` keys, in order.
pub open spec fn pressed(names: Seq<Seq<char>>, n: int) -> Seq<KeyboardStepView>
    decreases n,
{
    if n <= 0 {
        Seq::empty()
    } else {
        pressed(names, n - 1).push(
            key_step(
                key_of(names[n - 1])->Some_0,
                Direction::Press,
                named_failure("Failed to press key '"@, names[n - 1]),
            ),
        )
    }
}

/// The steps that release the last `n` keys, the last one first.
pub open spec fn released(names: Seq<Seq<char>>, n: int) -> Seq<KeyboardStepView>
    decreases n,
{
    if n <= 0 {
        Seq::empty()
    } else {
        released(names, n - 1).push(
            key_step(
                key_of(names[names.len() - n])->Some_0,
                Direction::Release,
                named_failure("Failed to release key '"@, names[names.len() - n]),
            ),
        )
    }
}

/// The plan that types a text at once.
pub open spec fn spec_type_string(text: Seq<char>) -> KeyboardPlanView {
    KeyboardPlanView {
        steps: seq![
            KeyboardStepView::Act(
                KeyboardCommandView {
                    action: KeyboardActionView::Text(text),
                    on_failure: "Failed to type text"@,
                },
            ),
        ],
        outcome: Ok(()),
    }
}

/// The steps that type the first `n` characters of a text one by one, with
/// the interval after each.
pub open spec fn typed(text: Seq<char>, n: int, interval: i64) -> Seq<KeyboardStepView>
    decreases n,
{
    if n <= 0 {
        Seq::empty()
    } else {
        typed(text, n - 1, interval).push(
            key_step(Key::Unicode(text[n - 1]), Direction::Click, typing_failure(text[n - 1])),
        ) + pause_steps(interval)
    }
}

/// The plan that types a text one character at a time.
pub open spec fn spec_type_string_with_interval(text: Seq<char>, interval: i64)
    -> KeyboardPlanView {
    KeyboardPlanView { steps: typed(text, text.len() as int, interval), outcome: Ok(()) }
}

/// The plan that does one thing to one named key.
pub open spec fn spec_single_key(name: Seq<char>, direction: Direction, on_failure: Seq<char>)
    -> KeyboardPlanView {
    match spec_convert_key(name) {
        Ok(key) => KeyboardPlanView {
            steps: seq![key_step(key, direction, on_failure)],
            outcome: Ok(()),
        },
        Err(e) => KeyboardPlanView { steps: Seq::empty(), outcome: Err(e) },
    }
}

/// The plan that clicks the named keys one after the other. It ends before
/// the first name that stands for no key, and then reports that name.
pub open spec fn spec_press_keys(names: Seq<Seq<char>>) -> KeyboardPlanView {
    let k = unknown_index(names, names.len() as int);
    KeyboardPlanView {
        steps: clicked(names, k),
        outcome: if k == names.len() {
            Ok(())
        } else {
            Err(unsupported_key(names[k]))
        },
    }
}

/// The plan that presses the named keys together: all are pressed in order,
/// held for a pause, and released in reverse order. It ends before the first
/// name that stands for no key, leaving the earlier keys pressed, and then
/// reports that name.
pub open spec fn spec_press_hotkey(names: Seq<Seq<char>>) -> KeyboardPlanView {
    let n = names.len() as int;
    let k = unknown_index(names, n);
    if k == n {
        KeyboardPlanView {
            steps: pressed(names, n).push(KeyboardStepView::Pause(KEY_PAUSE)) + released(names, n),
            outcome: Ok(()),
        }
    } else {
        KeyboardPlanView { steps: pressed(names, k), outcome: Err(unsupported_key(names[k])) }
    }
}

/// The plan that clicks one named key several times, with the interval after
/// each click.
pub open spec fn spec_press_key_multiple(name: Seq<char>, times: u32, interval: i64)
    -> KeyboardPlanView {
    match spec_convert_key(name) {
        Ok(key) => KeyboardPlanView {
            steps: repeated(
                seq![key_step(key, Direction::Click, "Failed to press key"@)] + pause_steps(
                    interval,
                ),
                times as int,
            ),
            outcome: Ok(()),
        },
        Err(e) => KeyboardPlanView { steps: Seq::empty(), outcome: Err(e) },
    }
}

/// The steps of a plain wait: one pause if the duration is positive, else
/// nothing.
pub open spec fn spec_sleep(micros: i64) -> KeyboardPlanView {
    KeyboardPlanView { steps: pause_steps(micros), outcome: Ok(()) }
}

/// Appends a step.
fn push_step(steps: &mut Vec<KeyboardStep>, step: KeyboardStep)
    ensures
        steps_view(final(steps)@) == steps_view(old(steps)@).push(step@),
{
    steps.push(step);
    assert(steps_view(steps@) =~= steps_view(old(steps)@).push(step@));
}

/// Appends the step that does something to one key.
pub(crate) fn push_key(
    steps: &mut Vec<KeyboardStep>,
    key: Key,
    direction: Direction,
    on_failure: String,
)
    ensures
        steps_view(final(steps)@) == steps_view(old(steps)@).push(
            key_step(key, direction, on_failure@),
        ),
{
    push_step(
        steps,
        KeyboardStep::Act(
            KeyboardCommand { action: KeyboardAction::Key { key, direction }, on_failure },
        ),
    );
}

/// Appends the pause that follows an action, if the interval is positive.
fn push_pause(steps: &mut Vec<KeyboardStep>, interval: i64)
    ensures
        steps_view(final(steps)@) == steps_view(old(steps)@) + pause_steps(interval),
{
    if interval > 0 {
        push_step(steps, KeyboardStep::Pause(interval as u64));
        assert(steps_view(steps@) =~= steps_view(old(steps)@) + pause_steps(interval));
    } else {
        assert(steps_view(steps@) =~= steps_view(old(steps)@) + pause_steps(interval));
    }
}

/// The words that describe doing something to the key that the user called
/// `name`.
fn describe_named(prefix: &str, name: &str) -> (words: String)
    ensures
        words@ == named_failure(prefix@, name@),
{
    let mut words = String::from_str(prefix);
    words.append(name);
    words.append("'");
    words
}

/// The plan that consists of nothing but a failure.
fn refused(e: MoverError) -> (plan: KeyboardPlan)
    ensures
        plan@ == (KeyboardPlanView { steps: Seq::empty(), outcome: Err(e@) }),
{
    let plan = KeyboardPlan { steps: Vec::new(), outcome: Err(e) };
    assert(plan@.steps =~= Seq::empty());
    plan
}

/// Plans keyboard work for the backend connection that it holds.
pub struct Keyboard<C> {
    /// The connection to the backend that carries the plans out.
    pub connection: C,
}

impl<C> Keyboard<C> {
    /// Takes over a backend connection, or reports why none could be made.
    pub fn new(connection: Result<C, String>) -> (r: MoverResult<Keyboard<C>>)
        ensures
            match connection {
                Ok(c) => r is Ok && r->Ok_0.connection == c,
                Err(e) => r is Err && r->Err_0@ == unsupported(
                    wrapped_text("Failed to create Enigo instance"@, e@),
                ),
            },
    {
        match connection {
            Ok(c) => Ok(Keyboard { connection: c }),
            Err(e) => Err(
                MoverError::backend_failure("Failed to create Enigo instance", e.as_str()),
            ),
        }
    }

    /// Plans typing a text as fast as the backend can.
    pub fn type_string(&self, text: &str) -> (plan: KeyboardPlan)
        ensures
            plan@ == spec_type_string(text@),
    {
        let mut steps: Vec<KeyboardStep> = Vec::new();
        push_step(
            &mut steps,
            KeyboardStep::Act(
                KeyboardCommand {
                    action: KeyboardAction::Text(String::from_str(text)),
                    on_failure: String::from_str("Failed to type text"),
                },
            ),
        );
        let plan = KeyboardPlan { steps, outcome: Ok(()) };
        assert(plan@.steps =~= spec_type_string(text@).steps);
        plan
    }

    /// Plans typing a text one character at a time, waiting `interval`
    /// microseconds after each character if the interval is positive.
    pub fn type_string_with_interval(&self, text: &str, interval: i64) -> (plan: KeyboardPlan)
        ensures
            plan@ == spec_type_string_with_interval(text@, interval),
    {
        let mut steps: Vec<KeyboardStep> = Vec::new();
        let n = text.unicode_len();
        let mut i: usize = 0;
        assert(steps_view(steps@) =~= typed(text@, 0, interval));
        while i < n
            invariant
                n == text@.len(),
                i <= n,
                steps_view(steps@) == typed(text@, i as int, interval),
            decreases n - i,
        {
            let c = text.get_char(i);
            let mut words = String::from_str("Failed to type character '");
            push_char(&mut words, c);
            words.append("'");
            push_key(&mut steps, Key::Unicode(c), Direction::Click, words);
            push_pause(&mut steps, interval);
            i = i + 1;
        }
        KeyboardPlan { steps, outcome: Ok(()) }
    }

    /// Plans one step on one named key.
    fn single_key(&self, key: &str, direction: Direction, on_failure: &str) -> (plan:
        KeyboardPlan)
        ensures
            plan@ == spec_single_key(key@, direction, on_failure@),
    {
        match convert_key(key) {
            Ok(code) => {
                let mut steps: Vec<KeyboardStep> = Vec::new();
                push_key(&mut steps, code, direction, String::from_str(on_failure));
                let plan = KeyboardPlan { steps, outcome: Ok(()) };
                assert(plan@.steps =~= seq![key_step(code, direction, on_failure@)]);
                plan
            },
            Err(e) => refused(e),
        }
    }

    /// Plans pressing a named key down and holding it.
    pub fn press_key(&self, key: &str) -> (plan: KeyboardPlan)
        ensures
            plan@ == spec_single_key(key@, Direction::Press, "Failed to press key"@),
    {
        self.single_key(key, Direction::Press, "Failed to press key")
    }

    /// Plans releasing a named key.
    pub fn release_key(&self, key: &str) -> (plan: KeyboardPlan)
        ensures
            plan@ == spec_single_key(key@, Direction::Release, "Failed to release key"@),
    {
        self.single_key(key, Direction::Release, "Failed to release key")
    }

    /// Plans pressing a named key and releasing it at once.
    pub fn tap_key(&self, key: &str) -> (plan: KeyboardPlan)
        ensures
            plan@ == spec_single_key(key@, Direction::Click, "Failed to tap key"@),
    {
        self.single_key(key, Direction::Click, "Failed to tap key")
    }

    /// Plans clicking the named keys one after the other, with a pause after
    /// each.
    pub fn press_keys(&self, keys: &[&str]) -> (plan: KeyboardPlan)
        ensures
            plan@ == spec_press_keys(names_of(keys@)),
    {
        let ghost names = names_of(keys@);
        let mut steps: Vec<KeyboardStep> = Vec::new();
        let mut i: usize = 0;
        assert(steps_view(steps@) =~= clicked(names, 0));
        while i < keys.len()
            invariant
                names == names_of(keys@),
                i <= keys@.len(),
                unknown_index(names, i as int) == i,
                steps_view(steps@) == clicked(names, i as int),
            decreases keys@.len() - i,
        {
            let name: &str = keys[i];
            assert(names[i as int] == name@);
            match convert_key(name) {
                Ok(code) => {
                    push_key(
                        &mut steps,
                        code,
                        Direction::Click,
                        describe_named("Failed to press key '", name),
                    );
                    push_step(&mut steps, KeyboardStep::Pause(KEY_PAUSE));
                },
                Err(e) => {
                    proof {
                        lemma_unknown_index_settles(names, i as int, names.len() as int);
                    }
                    return KeyboardPlan { steps, outcome: Err(e) };
                },
            }
            i = i + 1;
        }
        KeyboardPlan { steps, outcome: Ok(()) }
    }

    /// Plans a hotkey: the named keys are pressed in order, held for a
    /// pause, and released in reverse order.
    pub fn press_hotkey(&self, keys: &[&str]) -> (plan: KeyboardPlan)
        ensures
            plan@ == spec_press_hotkey(names_of(keys@)),
    {
        let ghost names = names_of(keys@);
        let n = keys.len();
        let mut steps: Vec<KeyboardStep> = Vec::new();
        let mut held: Vec<Key> = Vec::new();
        let mut i: usize = 0;
        assert(steps_view(steps@) =~= pressed(names, 0));
        while i < n
            invariant
                names == names_of(keys@),
                n == keys@.len(),
                i <= n,
                unknown_index(names, i as int) == i,
                steps_view(steps@) == pressed(names, i as int),
                held@.len() == i,
                forall|j: int| 0 <= j < i ==> key_of(#[trigger] names[j]) == Some(held@[j]),
            decreases n - i,
        {
            let name: &str = keys[i];
            assert(names[i as int] == name@);
            match convert_key(name) {
                Ok(code) => {
                    push_key(
                        &mut steps,
                        code,
                        Direction::Press,
                        describe_named("Failed to press key '", name),
                    );
                    held.push(code);
                },
                Err(e) => {
                    proof {
                        lemma_unknown_index_settles(names, i as int, names.len() as int);
                    }
                    return KeyboardPlan { steps, outcome: Err(e) };
                },
            }
            i = i + 1;
        }
        push_step(&mut steps, KeyboardStep::Pause(KEY_PAUSE));
        let ghost before = steps_view(steps@);
        let mut done: usize = 0;
        assert(steps_view(steps@) =~= before + released(names, 0));
        while done < n
            invariant
                names == names_of(keys@),
                n == keys@.len(),
                done <= n,
                held@.len() == n,
                forall|j: int| 0 <= j < n ==> key_of(#[trigger] names[j]) == Some(held@[j]),
                steps_view(steps@) == before + released(names, done as int),
            decreases n - done,
        {
            let at: usize = n - 1 - done;
            let name: &str = keys[at];
            assert(names[at as int] == name@);
            push_key(
                &mut steps,
                held[at],
                Direction::Release,
                describe_named("Failed to release key '", name),
            );
            assert(steps_view(steps@) =~= before + released(names, done + 1));
            done = done + 1;
        }
        KeyboardPlan { steps, outcome: Ok(()) }
    }

    /// Plans clicking one named key `times` times, waiting `interval`
    /// microseconds after each click if the interval is positive.
    pub fn press_key_multiple(&self, key: &str, times: u32, interval: i64) -> (plan:
        KeyboardPlan)
        ensures
            plan@ == spec_press_key_multiple(key@, times, interval),
    {
        match convert_key(key) {
            Ok(code) => {
                let ghost unit = seq![key_step(code, Direction::Click, "Failed to press key"@)]
                    + pause_steps(interval);
                let mut steps: Vec<KeyboardStep> = Vec::new();
                let mut i: u32 = 0;
                assert(steps_view(steps@) =~= repeated(unit, 0));
                while i < times
                    invariant
                        i <= times,
                        unit == seq![key_step(code, Direction::Click, "Failed to press key"@)]
                            + pause_steps(interval),
                        steps_view(steps@) == repeated(unit, i as int),
                    decreases times - i,
                {
                    push_key(
                        &mut steps,
                        code,
                        Direction::Click,
                        String::from_str("Failed to press key"),
                    );
                    push_pause(&mut steps, interval);
                    assert(steps_view(steps@) =~= repeated(unit, i as int) + unit);
                    i = i + 1;
                }
                KeyboardPlan { steps, outcome: Ok(()) }
            },
            Err(e) => refused(e),
        }
    }

    /// Plans a plain wait of `micros` microseconds; a wait that is not
    /// positive takes no step.
    pub fn sleep(&self, micros: i64) -> (plan: KeyboardPlan)
        ensures
            plan@ == spec_sleep(micros),
    {
        let mut steps: Vec<KeyboardStep> = Vec::new();
        assert(steps_view(steps@) =~= Seq::empty());
        push_pause(&mut steps, micros);
        KeyboardPlan { steps, outcome: Ok(()) }
    }
}

} // verus!
