//! Translation of external input events into toolkit input calls.
//!
//! Each abstract event maps to at most one `ToolkitCall`; a `Key::NoKey`
//! event maps to none at all. The calls a frame produces are gathered by
//! the owning context and performed against the toolkit in order, bracketed
//! by `InputBegin` and `InputEnd`.

use vstd::prelude::*;
use crate::fixed::Fx;

verus! {

/// An abstract keyboard key, with a `NoKey` sentinel for keys this bridge
/// does not forward.
#[derive(Clone, Copy, Debug, PartialEq, Eq, Structural)]
pub enum Key {
    NoKey,
    Shift,
    Ctrl,
    Del,
    Enter,
    Tab,
    Backspace,
    Copy,
    Cut,
    Paste,
    Up,
    Down,
    Left,
    Right,
}

/// An abstract mouse button.
#[derive(Clone, Copy, Debug, PartialEq, Eq, Structural)]
pub enum Button {
    Left,
    Middle,
    Right,
    Double,
}

/// Whether an event presses or releases a key or button.
#[derive(Clone, Copy, Debug, PartialEq, Eq, Structural)]
pub enum State {
    Press,
    Release,
}

/// The toolkit's own key identifiers, with its `Max` sentinel for an
/// unmapped key.
#[derive(Clone, Copy, Debug, PartialEq, Eq, Structural)]
pub enum ToolkitKey {
    Shift,
    Ctrl,
    Del,
    Enter,
    Tab,
    Backspace,
    Copy,
    Cut,
    Paste,
    Up,
    Down,
    Left,
    Right,
    Max,
}

/// The toolkit's own button identifiers, with its `Max` sentinel.
#[derive(Clone, Copy, Debug, PartialEq, Eq, Structural)]
pub enum ToolkitButton {
    Left,
    Middle,
    Right,
    Double,
    Max,
}

/// The key each abstract key maps to; `Key::NoKey` maps to the sentinel.
pub open spec fn convert_virtual_key_spec(key: Key) -> ToolkitKey {
    match key {
        Key::NoKey => ToolkitKey::Max,
        Key::Shift => ToolkitKey::Shift,
        Key::Ctrl => ToolkitKey::Ctrl,
        Key::Del => ToolkitKey::Del,
        Key::Enter => ToolkitKey::Enter,
        Key::Tab => ToolkitKey::Tab,
        Key::Backspace => ToolkitKey::Backspace,
        Key::Copy => ToolkitKey::Copy,
        Key::Cut => ToolkitKey::Cut,
        Key::Paste => ToolkitKey::Paste,
        Key::Up => ToolkitKey::Up,
        Key::Down => ToolkitKey::Down,
        Key::Left => ToolkitKey::Left,
        Key::Right => ToolkitKey::Right,
    }
}

/// Maps an abstract key to the toolkit's key identifier.
pub fn convert_virtual_key(key: Key) -> (k: ToolkitKey)
    ensures
        k == convert_virtual_key_spec(key),
{
    match key {
        Key::NoKey => ToolkitKey::Max,
        Key::Shift => ToolkitKey::Shift,
        Key::Ctrl => ToolkitKey::Ctrl,
        Key::Del => ToolkitKey::Del,
        Key::Enter => ToolkitKey::Enter,
        Key::Tab => ToolkitKey::Tab,
        Key::Backspace => ToolkitKey::Backspace,
        Key::Copy => ToolkitKey::Copy,
        Key::Cut => ToolkitKey::Cut,
        Key::Paste => ToolkitKey::Paste,
        Key::Up => ToolkitKey::Up,
        Key::Down => ToolkitKey::Down,
        Key::Left => ToolkitKey::Left,
        Key::Right => ToolkitKey::Right,
    }
}

/// The button each abstract button maps to: each to the toolkit's code of
/// the same name.
pub open spec fn convert_button_spec(button: Button) -> ToolkitButton {
    match button {
        Button::Left => ToolkitButton::Left,
        Button::Middle => ToolkitButton::Middle,
        Button::Right => ToolkitButton::Right,
        Button::Double => ToolkitButton::Double,
    }
}

/// Maps an abstract button to the toolkit's button identifier.
pub fn convert_button(button: Button) -> (b: ToolkitButton)
    ensures
        b == convert_button_spec(button),
{
    match button {
        Button::Left => ToolkitButton::Left,
        Button::Middle => ToolkitButton::Middle,
        Button::Right => ToolkitButton::Right,
        Button::Double => ToolkitButton::Double,
    }
}

/// The press/release flag the toolkit expects: press is 1, release is 0.
pub open spec fn state_flag_spec(state: State) -> i32 {
    match state {
        State::Press => 1,
        State::Release => 0,
    }
}

/// Maps a press/release state to the toolkit's flag.
pub fn state_flag(state: State) -> (s: i32)
    ensures
        s == state_flag_spec(state),
{
    match state {
        State::Press => 1,
        State::Release => 0,
    }
}

/// The low byte of a character's code point, which is all the toolkit's
/// narrow character call accepts.
pub open spec fn char_code_spec(c: char) -> u8 {
    (c as u32) as u8
}

/// Narrows a character to the single byte the toolkit call takes.
pub fn char_code(c: char) -> (b: u8)
    ensures
        b == char_code_spec(c),
{
    (c as u32) as u8
}

/// One call into the toolkit's input API, as plain values.
#[derive(Clone, Copy, Debug, PartialEq, Eq, Structural)]
pub enum ToolkitCall {
    InputBegin,
    InputEnd,
    /// A narrowed text character.
    InputChar(u8),
    /// A key with its press/release flag.
    InputKey(ToolkitKey, i32),
    /// An absolute cursor position in pixels.
    InputMotion(i32, i32),
    /// A button with the cursor position at event time and the flag.
    InputButton(ToolkitButton, i32, i32, i32),
    /// A two-dimensional scroll delta in normalized fractions.
    InputScroll(Fx, Fx),
}

/// A model of the toolkit's per-frame input accumulation. Events arriving
/// between `InputBegin` and `InputEnd` gather in `batch`; `InputEnd` commits
/// the batch into the resting state that persists across frames.
pub struct InputModel {
    /// The committed event history that outlives a frame.
    pub resting: Seq<ToolkitCall>,
    /// Events gathered since the last `InputBegin`.
    pub batch: Seq<ToolkitCall>,
    /// Whether a frame's bracket is currently open.
    pub open: bool,
}

/// How one toolkit call moves the input model.
pub open spec fn input_step(m: InputModel, c: ToolkitCall) -> InputModel {
    match c {
        ToolkitCall::InputBegin => InputModel { batch: Seq::empty(), open: true, ..m },
        ToolkitCall::InputEnd => InputModel {
            resting: m.resting + m.batch,
            batch: Seq::empty(),
            open: false,
            ..m
        },
        _ => InputModel { batch: m.batch.push(c), ..m },
    }
}

/// The input model after a sequence of toolkit calls.
pub open spec fn input_run(m: InputModel, calls: Seq<ToolkitCall>) -> InputModel
    decreases calls.len(),
{
    if calls.len() == 0 {
        m
    } else {
        input_run(input_step(m, calls[0]), calls.drop_first())
    }
}

/// A frame bracket with no events between begin and end commits nothing:
/// the resting input state is exactly what it was before the frame.
pub proof fn lemma_empty_frame_keeps_resting_state(m: InputModel)
    ensures
        input_run(m, seq![ToolkitCall::InputBegin, ToolkitCall::InputEnd]).resting == m.resting,
        !input_run(m, seq![ToolkitCall::InputBegin, ToolkitCall::InputEnd]).open,
{
    let calls = seq![ToolkitCall::InputBegin, ToolkitCall::InputEnd];
    let after_begin = input_step(m, ToolkitCall::InputBegin);
    let after_end = input_step(after_begin, ToolkitCall::InputEnd);
    assert(calls[0] == ToolkitCall::InputBegin);
    assert(calls.drop_first() =~= seq![ToolkitCall::InputEnd]);
    assert(calls.drop_first().drop_first() =~= Seq::<ToolkitCall>::empty());
    assert(input_run(m, calls) == input_run(after_begin, calls.drop_first()));
    assert(input_run(after_begin, calls.drop_first()) == input_run(
        after_end,
        calls.drop_first().drop_first(),
    ));
    assert(input_run(after_end, calls.drop_first().drop_first()) == after_end);
    assert(after_end.resting =~= m.resting);
}

} // verus!
