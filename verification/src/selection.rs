//! The selection state of a text area: whether shifted movement may select
//! at all, and the anchor that, together with the cursor, spans the selected
//! byte range.

use std::ops::Range;
use vstd::prelude::*;
use crate::motion::{
    binding_matches, first_match_from, first_matching_motion, KeyModifierFlags, KeyPhase,
    MovementBindings, SelectionMotion,
};

verus! {

/// What a `TextSelection` holds, as a plain value.
pub struct SelectionState {
    /// Whether shifted movement keys select text.
    pub enabled: bool,
    /// The end of the selection that stays put while the cursor moves.
    pub anchor: Option<usize>,
}

/// The state after `set_enabled(enabled)`: disabling also drops the anchor.
pub open spec fn set_enabled_state(s: SelectionState, enabled: bool) -> SelectionState {
    SelectionState { enabled: enabled, anchor: if enabled { s.anchor } else { None } }
}

/// The state after `clear()`: no anchor, the enabled flag unchanged.
pub open spec fn cleared_state(s: SelectionState) -> SelectionState {
    SelectionState { enabled: s.enabled, anchor: None }
}

/// The state after a selecting motion that started at `anchor` and left the
/// cursor at `cursor`: the anchor is kept only if the motion went somewhere.
pub open spec fn finished_motion_state(s: SelectionState, anchor: usize, cursor: usize) -> SelectionState {
    SelectionState { enabled: s.enabled, anchor: if anchor != cursor { Some(anchor) } else { None } }
}

/// The selected range for an anchor and a cursor: from the smaller to the
/// larger of the two, and none where there is no anchor or it sits at the
/// cursor.
pub open spec fn selected_range(anchor: Option<usize>, cursor: usize) -> Option<Range<usize>> {
    match anchor {
        Some(a) => if a < cursor {
            Some(Range { start: a, end: cursor })
        } else if cursor < a {
            Some(Range { start: cursor, end: a })
        } else {
            None
        },
        None => None,
    }
}

/// Whether a key event of this phase can select at all: only while
/// selection is enabled, and only for a press or a repeat.
pub open spec fn accepts_phase(s: SelectionState, phase: KeyPhase) -> bool {
    s.enabled && phase != KeyPhase::Release
}

/// The motion that a key event asks for: only when its phase is accepted,
/// only with Shift held, and then the first movement (in priority order)
/// whose binding matches the event without Shift.
pub open spec fn requested_motion(
    s: SelectionState,
    phase: KeyPhase,
    modifiers: KeyModifierFlags,
    pressed: MovementBindings,
) -> Option<SelectionMotion> {
    if !accepts_phase(s, phase) || !modifiers.shift {
        None
    } else {
        first_matching_motion(pressed)
    }
}

/// Selection state of a text area.
#[derive(Debug)]
pub struct TextSelection {
    enabled: bool,
    anchor: Option<usize>,
}

impl View for TextSelection {
    type V = SelectionState;

    closed spec fn view(&self) -> SelectionState {
        SelectionState { enabled: self.enabled, anchor: self.anchor }
    }
}

impl Default for TextSelection {
    /// Selection disabled, nothing anchored.
    fn default() -> (r: TextSelection)
        ensures
            r@ == (SelectionState { enabled: false, anchor: None }),
    {
        TextSelection { enabled: false, anchor: None }
    }
}

impl TextSelection {
    /// Turns selection on or off; turning it off drops any selection.
    pub fn set_enabled(&mut self, enabled: bool)
        ensures
            final(self)@ == set_enabled_state(old(self)@, enabled),
            final(self)@.enabled == enabled,
            !enabled ==> final(self)@.anchor is None,
            enabled ==> final(self)@.anchor == old(self)@.anchor,
    {
        self.enabled = enabled;
        if !enabled {
            self.clear();
        }
    }

    /// Drops the selection.
    pub fn clear(&mut self)
        ensures
            final(self)@ == cleared_state(old(self)@),
            final(self)@.anchor is None,
            final(self)@.enabled == old(self)@.enabled,
    {
        self.anchor = None;
    }

    /// The anchor of the selection, if one is active.
    pub fn anchor(&self) -> (r: Option<usize>)
        ensures
            r == self@.anchor,
    {
        self.anchor
    }

    /// Records the end of a selecting motion that started at `anchor` and
    /// left the cursor at `cursor`; a motion that came back to the anchor
    /// collapses the selection.
    pub fn finish_motion(&mut self, anchor: usize, cursor: usize)
        ensures
            final(self)@ == finished_motion_state(old(self)@, anchor, cursor),
            final(self)@.enabled == old(self)@.enabled,
            anchor == cursor ==> final(self)@.anchor is None,
            anchor != cursor ==> final(self)@.anchor == Some(anchor),
    {
        self.anchor = if anchor != cursor {
            Some(anchor)
        } else {
            None
        };
    }

    /// The selected byte range for the cursor at `cursor`: from the smaller
    /// to the larger of anchor and cursor; `None` when nothing is selected.
    pub fn range(&self, cursor: usize) -> (r: Option<Range<usize>>)
        ensures
            r == selected_range(self@.anchor, cursor),
            r is None <==> (self@.anchor is None || self@.anchor == Some(cursor)),
            r matches Some(sel) ==> {
                &&& sel.start < sel.end
                &&& (sel.start == cursor && self@.anchor == Some(sel.end))
                    || (sel.end == cursor && self@.anchor == Some(sel.start))
            },
    {
        match self.anchor {
            Some(a) => if a < cursor {
                Some(a..cursor)
            } else if cursor < a {
                Some(cursor..a)
            } else {
                None
            },
            None => None,
        }
    }

    /// Whether a key event of this phase can select at all: false while
    /// selection is disabled and for key releases. Past this gate, and past
    /// `KeyModifierFlags::movement_modifiers` (Shift held), the keymap's
    /// bindings decide; before it they need not be consulted.
    pub fn selecting(&self, phase: KeyPhase) -> (r: bool)
        ensures
            r == accepts_phase(self@, phase),
            r <==> (self@.enabled && (phase == KeyPhase::Press || phase == KeyPhase::Repeat)),
    {
        let is_press = match phase {
            KeyPhase::Press => true,
            KeyPhase::Repeat => true,
            KeyPhase::Release => false,
        };
        self.enabled && is_press
    }

    /// The selection motion that a key event asks for. `phase` is the event's
    /// phase, `modifiers` its modifiers after the keymap's normalisation, and
    /// `pressed` tells which of the keymap's movement bindings match the
    /// event with Shift released (see `KeyModifierFlags::movement_modifiers`). The
    /// result does not depend on `pressed` when `selecting` is false or Shift
    /// is not held.
    pub fn motion_for_event(
        &self,
        phase: KeyPhase,
        modifiers: KeyModifierFlags,
        pressed: &MovementBindings,
    ) -> (r: Option<SelectionMotion>)
        ensures
            r == requested_motion(self@, phase, modifiers, *pressed),
            phase == KeyPhase::Release ==> r is None,
            !self@.enabled ==> r is None,
            !modifiers.shift ==> r is None,
            r matches Some(m) ==> binding_matches(*pressed, m),
    {
        if !self.selecting(phase) || !modifiers.shift {
            return None;
        }
        proof {
            reveal_with_fuel(first_match_from, 9);
        }
        if pressed.word_left {
            Some(SelectionMotion::WordLeft)
        } else if pressed.word_right {
            Some(SelectionMotion::WordRight)
        } else if pressed.left {
            Some(SelectionMotion::Left)
        } else if pressed.right {
            Some(SelectionMotion::Right)
        } else if pressed.up {
            Some(SelectionMotion::Up)
        } else if pressed.down {
            Some(SelectionMotion::Down)
        } else if pressed.line_start {
            Some(SelectionMotion::LineStart)
        } else if pressed.line_end {
            Some(SelectionMotion::LineEnd)
        } else {
            None
        }
    }
}

} // verus!
