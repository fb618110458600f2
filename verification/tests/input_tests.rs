use gui_bridge::context::Context;
use gui_bridge::fixed::Fx;
use gui_bridge::input::Button;
use gui_bridge::input::Key;
use gui_bridge::input::State;
use gui_bridge::input::ToolkitButton;
use gui_bridge::input::ToolkitKey;
use gui_bridge::input::ToolkitCall;
use gui_bridge::input::char_code;
use gui_bridge::input::convert_button;
use gui_bridge::input::convert_virtual_key;
use gui_bridge::input::state_flag;

#[test]
fn key_mapping_covers_every_key() {
    assert_eq!(convert_virtual_key(Key::Shift), ToolkitKey::Shift);
    assert_eq!(convert_virtual_key(Key::Ctrl), ToolkitKey::Ctrl);
    assert_eq!(convert_virtual_key(Key::Del), ToolkitKey::Del);
    assert_eq!(convert_virtual_key(Key::Enter), ToolkitKey::Enter);
    assert_eq!(convert_virtual_key(Key::Tab), ToolkitKey::Tab);
    assert_eq!(convert_virtual_key(Key::Backspace), ToolkitKey::Backspace);
    assert_eq!(convert_virtual_key(Key::Copy), ToolkitKey::Copy);
    assert_eq!(convert_virtual_key(Key::Cut), ToolkitKey::Cut);
    assert_eq!(convert_virtual_key(Key::Paste), ToolkitKey::Paste);
    assert_eq!(convert_virtual_key(Key::Up), ToolkitKey::Up);
    assert_eq!(convert_virtual_key(Key::Down), ToolkitKey::Down);
    assert_eq!(convert_virtual_key(Key::Left), ToolkitKey::Left);
    assert_eq!(convert_virtual_key(Key::Right), ToolkitKey::Right);
    assert_eq!(convert_virtual_key(Key::NoKey), ToolkitKey::Max);
}

#[test]
fn button_mapping_is_straight() {
    assert_eq!(convert_button(Button::Left), ToolkitButton::Left);
    assert_eq!(convert_button(Button::Middle), ToolkitButton::Middle);
    assert_eq!(convert_button(Button::Right), ToolkitButton::Right);
    assert_eq!(convert_button(Button::Double), ToolkitButton::Double);
}

#[test]
fn press_is_one_release_is_zero() {
    assert_eq!(state_flag(State::Press), 1);
    assert_eq!(state_flag(State::Release), 0);
}

#[test]
fn char_code_keeps_the_low_byte() {
    assert_eq!(char_code('A'), 65u8);
    assert_eq!(char_code('\u{0}'), 0u8);
    assert_eq!(char_code('\u{e9}'), 0xe9u8);
    assert_eq!(char_code('\u{1f600}'), 0x00u8);
}

#[test]
fn none_key_forwards_nothing() {
    let mut ctx = Context::new();
    ctx.input_begin();
    ctx.input_key(Key::NoKey, State::Press);
    ctx.input_key(Key::NoKey, State::Release);
    ctx.input_end();
    let calls = ctx.take_calls();
    assert_eq!(calls, vec![ToolkitCall::InputBegin, ToolkitCall::InputEnd]);
}

#[test]
fn mapped_key_forwards_one_call() {
    let mut ctx = Context::new();
    ctx.input_begin();
    ctx.input_key(Key::Enter, State::Press);
    ctx.input_end();
    let calls = ctx.take_calls();
    assert_eq!(
        calls,
        vec![
            ToolkitCall::InputBegin,
            ToolkitCall::InputKey(ToolkitKey::Enter, 1),
            ToolkitCall::InputEnd,
        ]
    );
}

#[test]
fn empty_frame_is_just_the_bracket() {
    let mut ctx = Context::new();
    ctx.input_begin();
    ctx.input_end();
    let calls = ctx.take_calls();
    assert_eq!(calls, vec![ToolkitCall::InputBegin, ToolkitCall::InputEnd]);
    assert!(ctx.take_calls().is_empty());
}

#[test]
fn button_reports_at_last_recorded_cursor() {
    let mut ctx = Context::new();
    ctx.input_begin();
    ctx.input_motion(120, 45);
    ctx.input_button(Button::Left, State::Press);
    ctx.input_button(Button::Left, State::Release);
    ctx.input_end();
    let calls = ctx.take_calls();
    assert_eq!(
        calls,
        vec![
            ToolkitCall::InputBegin,
            ToolkitCall::InputMotion(120, 45),
            ToolkitCall::InputButton(ToolkitButton::Left, 120, 45, 1),
            ToolkitCall::InputButton(ToolkitButton::Left, 120, 45, 0),
            ToolkitCall::InputEnd,
        ]
    );
}

#[test]
fn button_without_motion_reports_at_origin() {
    let mut ctx = Context::new();
    ctx.input_begin();
    ctx.input_button(Button::Double, State::Press);
    ctx.input_end();
    let calls = ctx.take_calls();
    assert_eq!(
        calls,
        vec![
            ToolkitCall::InputBegin,
            ToolkitCall::InputButton(ToolkitButton::Double, 0, 0, 1),
            ToolkitCall::InputEnd,
        ]
    );
}

#[test]
fn char_and_scroll_forward_in_order() {
    let mut ctx = Context::new();
    ctx.input_begin();
    ctx.input_char('x');
    ctx.input_scroll(Fx { raw: 65536 }, Fx { raw: -65536 });
    ctx.input_end();
    let calls = ctx.take_calls();
    assert_eq!(
        calls,
        vec![
            ToolkitCall::InputBegin,
            ToolkitCall::InputChar(120),
            ToolkitCall::InputScroll(Fx { raw: 65536 }, Fx { raw: -65536 }),
            ToolkitCall::InputEnd,
        ]
    );
}
