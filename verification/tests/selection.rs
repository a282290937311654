use text_selection::motion::KeyModifierFlags;
use text_selection::motion::KeyPhase;
use text_selection::motion::MovementBindings;
use text_selection::motion::SelectionMotion;
use text_selection::selection::TextSelection;

fn shift() -> KeyModifierFlags {
    KeyModifierFlags {
        shift: true,
        control: false,
        alt: false,
        super_key: false,
        hyper: false,
        meta: false,
    }
}

fn plain() -> KeyModifierFlags {
    KeyModifierFlags { shift: false, ..shift() }
}

fn nothing_pressed() -> MovementBindings {
    MovementBindings {
        left: false,
        right: false,
        up: false,
        down: false,
        word_left: false,
        word_right: false,
        line_start: false,
        line_end: false,
    }
}

fn enabled() -> TextSelection {
    let mut selection = TextSelection::default();
    selection.set_enabled(true);
    selection
}

#[test]
fn default_selection_is_empty() {
    let selection = TextSelection::default();
    assert_eq!(selection.anchor(), None);
    assert_eq!(selection.range(0), None);
    assert_eq!(selection.range(7), None);
}

#[test]
fn default_selection_is_disabled() {
    let selection = TextSelection::default();
    let pressed = MovementBindings { left: true, ..nothing_pressed() };
    assert_eq!(selection.motion_for_event(KeyPhase::Press, shift(), &pressed), None);
}

#[test]
fn finishing_a_motion_extends_forward() {
    let mut selection = enabled();
    selection.finish_motion(6, 7);
    assert_eq!(selection.anchor(), Some(6));
    assert_eq!(selection.range(7), Some(6..7));
    selection.finish_motion(6, 10);
    assert_eq!(selection.range(10), Some(6..10));
}

#[test]
fn finishing_a_motion_backward_reverses_the_range() {
    let mut selection = enabled();
    selection.finish_motion(13, 5);
    assert_eq!(selection.anchor(), Some(13));
    assert_eq!(selection.range(5), Some(5..13));
}

#[test]
fn range_is_the_same_whichever_end_is_anchored() {
    let mut forward = enabled();
    forward.finish_motion(3, 9);
    let mut backward = enabled();
    backward.finish_motion(9, 3);
    assert_eq!(forward.range(9), backward.range(3));
    assert_eq!(forward.range(9), Some(3..9));
}

#[test]
fn returning_to_the_anchor_collapses_the_selection() {
    let mut selection = enabled();
    selection.finish_motion(6, 7);
    selection.finish_motion(6, 6);
    assert_eq!(selection.anchor(), None);
    assert_eq!(selection.range(6), None);
}

#[test]
fn range_is_none_when_the_cursor_sits_on_the_anchor() {
    let mut selection = enabled();
    selection.finish_motion(4, 8);
    assert_eq!(selection.range(4), None);
    assert_eq!(selection.range(2), Some(2..4));
}

#[test]
fn clearing_drops_the_selection_and_keeps_selection_enabled() {
    let mut selection = enabled();
    selection.finish_motion(1, 5);
    selection.clear();
    assert_eq!(selection.anchor(), None);
    assert_eq!(selection.range(5), None);
    selection.clear();
    assert_eq!(selection.anchor(), None);
    let pressed = MovementBindings { right: true, ..nothing_pressed() };
    assert_eq!(
        selection.motion_for_event(KeyPhase::Press, shift(), &pressed),
        Some(SelectionMotion::Right)
    );
}

#[test]
fn disabling_clears_the_selection() {
    let mut selection = enabled();
    selection.finish_motion(2, 9);
    selection.set_enabled(false);
    assert_eq!(selection.anchor(), None);
    assert_eq!(selection.range(9), None);
    let pressed = MovementBindings { left: true, ..nothing_pressed() };
    assert_eq!(selection.motion_for_event(KeyPhase::Press, shift(), &pressed), None);
}

#[test]
fn enabling_keeps_the_selection() {
    let mut selection = enabled();
    selection.finish_motion(2, 9);
    selection.set_enabled(true);
    assert_eq!(selection.anchor(), Some(2));
    assert_eq!(selection.range(9), Some(2..9));
}

#[test]
fn the_last_motion_replaces_the_earlier_one() {
    let mut selection = enabled();
    selection.finish_motion(2, 9);
    selection.finish_motion(11, 4);
    assert_eq!(selection.anchor(), Some(11));
    assert_eq!(selection.range(4), Some(4..11));
}

#[test]
fn unshifted_keys_do_not_select() {
    let selection = enabled();
    let pressed = MovementBindings { left: true, ..nothing_pressed() };
    assert_eq!(selection.motion_for_event(KeyPhase::Press, plain(), &pressed), None);
    let control = KeyModifierFlags { control: true, ..plain() };
    assert_eq!(selection.motion_for_event(KeyPhase::Repeat, control, &pressed), None);
}

#[test]
fn key_releases_do_not_select() {
    let selection = enabled();
    let pressed = MovementBindings { left: true, ..nothing_pressed() };
    assert_eq!(selection.motion_for_event(KeyPhase::Release, shift(), &pressed), None);
}

#[test]
fn presses_and_repeats_select() {
    let selection = enabled();
    let pressed = MovementBindings { up: true, ..nothing_pressed() };
    assert_eq!(
        selection.motion_for_event(KeyPhase::Press, shift(), &pressed),
        Some(SelectionMotion::Up)
    );
    assert_eq!(
        selection.motion_for_event(KeyPhase::Repeat, shift(), &pressed),
        Some(SelectionMotion::Up)
    );
}

#[test]
fn shifted_key_without_a_movement_binding_does_not_select() {
    let selection = enabled();
    assert_eq!(
        selection.motion_for_event(KeyPhase::Press, shift(), &nothing_pressed()),
        None
    );
}

#[test]
fn each_movement_binding_gives_its_motion() {
    let selection = enabled();
    let cases = [
        (MovementBindings { left: true, ..nothing_pressed() }, SelectionMotion::Left),
        (MovementBindings { right: true, ..nothing_pressed() }, SelectionMotion::Right),
        (MovementBindings { up: true, ..nothing_pressed() }, SelectionMotion::Up),
        (MovementBindings { down: true, ..nothing_pressed() }, SelectionMotion::Down),
        (MovementBindings { word_left: true, ..nothing_pressed() }, SelectionMotion::WordLeft),
        (MovementBindings { word_right: true, ..nothing_pressed() }, SelectionMotion::WordRight),
        (MovementBindings { line_start: true, ..nothing_pressed() }, SelectionMotion::LineStart),
        (MovementBindings { line_end: true, ..nothing_pressed() }, SelectionMotion::LineEnd),
    ];
    for (pressed, motion) in cases {
        assert_eq!(
            selection.motion_for_event(KeyPhase::Press, shift(), &pressed),
            Some(motion)
        );
    }
}

#[test]
fn word_bindings_take_precedence_over_character_bindings() {
    let selection = enabled();
    let both = MovementBindings { word_right: true, right: true, ..nothing_pressed() };
    assert_eq!(
        selection.motion_for_event(KeyPhase::Press, shift(), &both),
        Some(SelectionMotion::WordRight)
    );
    let both_left = MovementBindings { word_left: true, left: true, word_right: true, ..nothing_pressed() };
    assert_eq!(
        selection.motion_for_event(KeyPhase::Press, shift(), &both_left),
        Some(SelectionMotion::WordLeft)
    );
    let line_and_down = MovementBindings { down: true, line_end: true, ..nothing_pressed() };
    assert_eq!(
        selection.motion_for_event(KeyPhase::Press, shift(), &line_and_down),
        Some(SelectionMotion::Down)
    );
}

#[test]
fn movement_modifiers_release_only_shift() {
    let held = KeyModifierFlags { control: true, meta: true, ..shift() };
    let released = held.movement_modifiers().unwrap();
    assert!(!released.shift);
    assert!(released.control);
    assert!(released.meta);
    assert!(!released.alt);
    assert!(!released.super_key);
    assert!(!released.hyper);
}

#[test]
fn movement_modifiers_need_shift() {
    let control = KeyModifierFlags { control: true, ..plain() };
    assert_eq!(control.movement_modifiers(), None);
    assert_eq!(plain().movement_modifiers(), None);
}

#[test]
fn only_enabled_presses_and_repeats_pass_the_gate() {
    let disabled = TextSelection::default();
    assert!(!disabled.selecting(KeyPhase::Press));
    assert!(!disabled.selecting(KeyPhase::Repeat));
    let selection = enabled();
    assert!(selection.selecting(KeyPhase::Press));
    assert!(selection.selecting(KeyPhase::Repeat));
    assert!(!selection.selecting(KeyPhase::Release));
    let mut turned_off = enabled();
    turned_off.set_enabled(false);
    assert!(!turned_off.selecting(KeyPhase::Press));
}

#[test]
fn gated_keys_select_nothing_whatever_the_bindings() {
    let every = MovementBindings {
        left: true,
        right: true,
        up: true,
        down: true,
        word_left: true,
        word_right: true,
        line_start: true,
        line_end: true,
    };
    let selection = enabled();
    assert_eq!(selection.motion_for_event(KeyPhase::Release, shift(), &every), None);
    assert_eq!(selection.motion_for_event(KeyPhase::Press, plain(), &every), None);
    let disabled = TextSelection::default();
    assert_eq!(disabled.motion_for_event(KeyPhase::Press, shift(), &every), None);
    assert_eq!(
        selection.motion_for_event(KeyPhase::Press, shift(), &every),
        Some(SelectionMotion::WordLeft)
    );
}

#[test]
fn shifted_right_left_and_word_right_select_as_a_text_area_would() {
    // "alpha beta" with the cursor before "beta" (byte 6).
    let mut selection = enabled();
    let right = MovementBindings { right: true, ..nothing_pressed() };
    assert_eq!(
        selection.motion_for_event(KeyPhase::Press, shift(), &right),
        Some(SelectionMotion::Right)
    );
    let anchor = selection.anchor().unwrap_or(6);
    selection.finish_motion(anchor, 7);
    assert_eq!(selection.range(7), Some(6..7));

    let anchor = selection.anchor().unwrap_or(7);
    selection.finish_motion(anchor, 6);
    assert_eq!(selection.range(6), None);

    let word_right = MovementBindings { word_right: true, right: true, ..nothing_pressed() };
    let control_shift = KeyModifierFlags { control: true, ..shift() };
    assert_eq!(
        selection.motion_for_event(KeyPhase::Press, control_shift, &word_right),
        Some(SelectionMotion::WordRight)
    );
    let anchor = selection.anchor().unwrap_or(6);
    selection.finish_motion(anchor, 10);
    assert_eq!(selection.range(10), Some(6..10));
}
