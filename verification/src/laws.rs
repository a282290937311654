//! Properties of the selection that hold across its operations.

use vstd::prelude::*;
use crate::motion::{
    binding_matches, first_match_from, first_matching_motion, motion_priority, KeyModifierFlags, KeyPhase,
    MovementBindings, SelectionMotion, shift_released,
};
use crate::selection::{
    accepts_phase, cleared_state, finished_motion_state, requested_motion, selected_range, set_enabled_state,
    SelectionState,
};

verus! {

/// The selection does not depend on which end is the anchor: an anchor at
/// `a` with the cursor at `c` selects the same range as an anchor at `c` with
/// the cursor at `a`. So moving the cursor past the anchor reverses the
/// selection without losing it.
pub proof fn range_is_symmetric(a: usize, c: usize)
    ensures
        selected_range(Some(a), c) == selected_range(Some(c), a),
{
}

/// A selected range is never empty, one of its ends is the cursor and the
/// other the anchor; nothing is selected exactly when there is no anchor or
/// it sits at the cursor.
pub proof fn range_spans_anchor_and_cursor(anchor: Option<usize>, cursor: usize)
    ensures
        selected_range(anchor, cursor) matches Some(r) ==> {
            &&& r.start < r.end
            &&& anchor is Some
            &&& (r.start == cursor && r.end == anchor->0) || (r.end == cursor && r.start == anchor->0)
        },
        selected_range(anchor, cursor) is None <==> (anchor is None || anchor == Some(cursor)),
{
}

/// After a selecting motion the selection spans from where the motion
/// started to where the cursor landed; a motion that returns to its start
/// collapses the selection.
pub proof fn finished_motion_selects_its_span(s: SelectionState, anchor: usize, cursor: usize)
    ensures
        selected_range(finished_motion_state(s, anchor, cursor).anchor, cursor)
            == selected_range(Some(anchor), cursor),
        selected_range(finished_motion_state(s, anchor, anchor).anchor, anchor) is None,
{
}

/// Only the last selecting motion counts: it replaces whatever an earlier
/// one left, and neither changes whether selection is enabled.
pub proof fn last_motion_wins(
    s: SelectionState,
    a1: usize,
    c1: usize,
    a2: usize,
    c2: usize,
)
    ensures
        finished_motion_state(finished_motion_state(s, a1, c1), a2, c2)
            == finished_motion_state(s, a2, c2),
        finished_motion_state(s, a1, c1).enabled == s.enabled,
{
}

/// Clearing drops the selection for every cursor, keeps the enabled flag,
/// and clearing again changes nothing.
pub proof fn clear_drops_selection(s: SelectionState, cursor: usize)
    ensures
        selected_range(cleared_state(s).anchor, cursor) is None,
        cleared_state(s).enabled == s.enabled,
        cleared_state(cleared_state(s)) == cleared_state(s),
{
}

/// Enabling selection keeps the current selection.
pub proof fn enabling_keeps_selection(s: SelectionState)
    ensures
        set_enabled_state(s, true) == (SelectionState { enabled: true, anchor: s.anchor }),
{
}

/// Disabling drops the selection, and afterwards no key event asks for a
/// selection motion, whatever the state was before.
pub proof fn disabling_clears_and_ignores_keys(
    s: SelectionState,
    cursor: usize,
    phase: KeyPhase,
    modifiers: KeyModifierFlags,
    pressed: MovementBindings,
)
    ensures
        set_enabled_state(s, false) == (SelectionState { enabled: false, anchor: None }),
        selected_range(set_enabled_state(s, false).anchor, cursor) is None,
        requested_motion(set_enabled_state(s, false), phase, modifiers, pressed) is None,
{
}

/// Selection is opt-in: while it is disabled, no key event asks for a
/// selection motion.
pub proof fn disabled_selection_ignores_keys(
    s: SelectionState,
    phase: KeyPhase,
    modifiers: KeyModifierFlags,
    pressed: MovementBindings,
)
    requires
        !s.enabled,
    ensures
        requested_motion(s, phase, modifiers, pressed) is None,
{
}

/// Only shifted presses and repeats on an enabled selection select: when
/// the phase is not accepted (selection disabled, or a key release) or Shift
/// is not held, no selection motion is asked for, whatever the keymap's
/// bindings would say; so the bindings need not be consulted there.
pub proof fn gated_keys_ignore_bindings(
    s: SelectionState,
    phase: KeyPhase,
    modifiers: KeyModifierFlags,
    pressed: MovementBindings,
    other: MovementBindings,
)
    requires
        !accepts_phase(s, phase) || !modifiers.shift,
    ensures
        requested_motion(s, phase, modifiers, pressed) is None,
        requested_motion(s, phase, modifiers, pressed) == requested_motion(
            s,
            phase,
            modifiers,
            other,
        ),
{
}

/// A shifted press or repeat on an enabled selection asks for a motion
/// exactly when some movement binding matches; the motion it asks for is one
/// whose binding matches, and no motion before it in priority order matches.
pub proof fn requested_motion_is_first_match(
    s: SelectionState,
    phase: KeyPhase,
    modifiers: KeyModifierFlags,
    pressed: MovementBindings,
)
    requires
        s.enabled,
        phase != KeyPhase::Release,
        modifiers.shift,
    ensures
        requested_motion(s, phase, modifiers, pressed) is Some
            <==> exists|m: SelectionMotion| binding_matches(pressed, m),
        requested_motion(s, phase, modifiers, pressed) matches Some(m) ==> {
            &&& binding_matches(pressed, m)
            &&& forall|i: int, j: int|
                #![trigger motion_priority()[i], motion_priority()[j]]
                0 <= i < j < motion_priority().len() && motion_priority()[j] == m
                    ==> !binding_matches(pressed, motion_priority()[i])
        },
{
    reveal_with_fuel(first_match_from, 9);
    if exists|m: SelectionMotion| binding_matches(pressed, m) {
        let m = choose|m: SelectionMotion| binding_matches(pressed, m);
        assert(binding_matches(pressed, m));
        assert(first_matching_motion(pressed) is Some);
    }
    let p = motion_priority();
    assert(p.len() == 8);
    assert(p[0] == SelectionMotion::WordLeft);
    assert(p[1] == SelectionMotion::WordRight);
    assert(p[2] == SelectionMotion::Left);
    assert(p[3] == SelectionMotion::Right);
    assert(p[4] == SelectionMotion::Up);
    assert(p[5] == SelectionMotion::Down);
    assert(p[6] == SelectionMotion::LineStart);
    assert(p[7] == SelectionMotion::LineEnd);
    if requested_motion(s, phase, modifiers, pressed) is Some {
        assert(binding_matches(pressed, requested_motion(s, phase, modifiers, pressed)->0));
    }
}

/// A word binding shadows a character binding on the same key: when the
/// word-left (or word-right) binding matches a shifted press, that is the
/// motion asked for.
pub proof fn word_motions_take_precedence(
    s: SelectionState,
    phase: KeyPhase,
    modifiers: KeyModifierFlags,
    pressed: MovementBindings,
)
    requires
        s.enabled,
        phase != KeyPhase::Release,
        modifiers.shift,
    ensures
        pressed.word_left ==> requested_motion(s, phase, modifiers, pressed)
            == Some(SelectionMotion::WordLeft),
        !pressed.word_left && pressed.word_right ==> requested_motion(s, phase, modifiers, pressed)
            == Some(SelectionMotion::WordRight),
{
    reveal_with_fuel(first_match_from, 3);
}

/// A key release never selects, whatever the selection holds and whatever
/// the modifiers and bindings; presses and repeats pass the phase gate
/// exactly while selection is enabled.
pub proof fn key_release_never_selects(
    s: SelectionState,
    modifiers: KeyModifierFlags,
    pressed: MovementBindings,
)
    ensures
        !accepts_phase(s, KeyPhase::Release),
        requested_motion(s, KeyPhase::Release, modifiers, pressed) is None,
        accepts_phase(s, KeyPhase::Press) == s.enabled,
        accepts_phase(s, KeyPhase::Repeat) == s.enabled,
{
}

/// Releasing Shift changes Shift alone: every other modifier of a shifted
/// key is kept for the movement it extends (Shift+Alt+Left looks up Alt+Left).
pub proof fn releasing_shift_keeps_other_modifiers(m: KeyModifierFlags)
    ensures
        !shift_released(m).shift,
        shift_released(m).control == m.control,
        shift_released(m).alt == m.alt,
        shift_released(m).super_key == m.super_key,
        shift_released(m).hyper == m.hyper,
        shift_released(m).meta == m.meta,
{
}

/// A motion that ends where it started leaves no anchor at all, wherever it
/// started, so no selection reappears when the cursor later moves; a motion
/// that went somewhere anchors at its start.
pub proof fn motion_back_to_its_start_leaves_no_anchor(
    s: SelectionState,
    start: usize,
    end: usize,
    later_cursor: usize,
)
    ensures
        finished_motion_state(s, start, start).anchor is None,
        selected_range(finished_motion_state(s, start, start).anchor, later_cursor) is None,
        start != end ==> finished_motion_state(s, start, end).anchor == Some(start),
{
}

/// The full order in which a shifted press consults the bindings: word
/// left, word right, left, right, up, down, line start, line end. Each motion
/// is asked for exactly when its binding matches and none before it does.
pub proof fn bindings_are_consulted_in_order(
    s: SelectionState,
    phase: KeyPhase,
    modifiers: KeyModifierFlags,
    p: MovementBindings,
)
    requires
        s.enabled,
        phase != KeyPhase::Release,
        modifiers.shift,
    ensures
        p.word_left ==> requested_motion(s, phase, modifiers, p) == Some(SelectionMotion::WordLeft),
        !p.word_left && p.word_right ==> requested_motion(s, phase, modifiers, p) == Some(
            SelectionMotion::WordRight,
        ),
        !p.word_left && !p.word_right && p.left ==> requested_motion(s, phase, modifiers, p)
            == Some(SelectionMotion::Left),
        !p.word_left && !p.word_right && !p.left && p.right ==> requested_motion(
            s,
            phase,
            modifiers,
            p,
        ) == Some(SelectionMotion::Right),
        !p.word_left && !p.word_right && !p.left && !p.right && p.up ==> requested_motion(
            s,
            phase,
            modifiers,
            p,
        ) == Some(SelectionMotion::Up),
        !p.word_left && !p.word_right && !p.left && !p.right && !p.up && p.down
            ==> requested_motion(s, phase, modifiers, p) == Some(SelectionMotion::Down),
        !p.word_left && !p.word_right && !p.left && !p.right && !p.up && !p.down && p.line_start
            ==> requested_motion(s, phase, modifiers, p) == Some(SelectionMotion::LineStart),
        !p.word_left && !p.word_right && !p.left && !p.right && !p.up && !p.down
            && !p.line_start && p.line_end ==> requested_motion(s, phase, modifiers, p) == Some(
            SelectionMotion::LineEnd,
        ),
        !p.word_left && !p.word_right && !p.left && !p.right && !p.up && !p.down
            && !p.line_start && !p.line_end ==> requested_motion(s, phase, modifiers, p) is None,
{
    reveal_with_fuel(first_match_from, 9);
}

} // verus!
