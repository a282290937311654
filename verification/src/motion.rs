//! Key input as the selection logic reads it, and the motions it can ask for.

use vstd::prelude::*;

verus! {

/// A cursor movement that extends (or shrinks) the selection.
#[derive(Clone, Copy, Debug, PartialEq, Eq, Structural)]
pub enum SelectionMotion {
    Left,
    Right,
    Up,
    Down,
    WordLeft,
    WordRight,
    LineStart,
    LineEnd,
}

/// The phase of a key event: first press, auto-repeat, or release.
#[derive(Clone, Copy, Debug, PartialEq, Eq, Structural)]
pub enum KeyPhase {
    Press,
    Repeat,
    Release,
}

/// The modifier keys held during a key event.
#[derive(Clone, Copy, Debug, PartialEq, Eq, Structural)]
pub struct KeyModifierFlags {
    pub shift: bool,
    pub control: bool,
    pub alt: bool,
    pub super_key: bool,
    pub hyper: bool,
    pub meta: bool,
}

/// The same modifiers with Shift released.
pub open spec fn shift_released(m: KeyModifierFlags) -> KeyModifierFlags {
    KeyModifierFlags {
        shift: false,
        control: m.control,
        alt: m.alt,
        super_key: m.super_key,
        hyper: m.hyper,
        meta: m.meta,
    }
}

impl KeyModifierFlags {
    /// The modifiers of the plain movement that a shifted key extends the
    /// selection with: these modifiers with Shift released, or `None` when
    /// Shift is not held (such a key never selects).
    pub fn movement_modifiers(&self) -> (r: Option<KeyModifierFlags>)
        ensures
            r == (if self.shift {
                Some(shift_released(*self))
            } else {
                None
            }),
            !self.shift ==> r is None,
            self.shift ==> r == Some(
                KeyModifierFlags {
                    shift: false,
                    control: self.control,
                    alt: self.alt,
                    super_key: self.super_key,
                    hyper: self.hyper,
                    meta: self.meta,
                },
            ),
    {
        if !self.shift {
            return None;
        }
        Some(
            KeyModifierFlags {
                shift: false,
                control: self.control,
                alt: self.alt,
                super_key: self.super_key,
                hyper: self.hyper,
                meta: self.meta,
            },
        )
    }
}

/// For each movement of the editor's keymap, whether one of its bindings
/// matches the key event with Shift released.
#[derive(Clone, Copy, Debug, PartialEq, Eq, Structural)]
pub struct MovementBindings {
    pub left: bool,
    pub right: bool,
    pub up: bool,
    pub down: bool,
    pub word_left: bool,
    pub word_right: bool,
    pub line_start: bool,
    pub line_end: bool,
}

/// Whether the keymap's bindings for `motion` match.
pub open spec fn binding_matches(pressed: MovementBindings, motion: SelectionMotion) -> bool {
    match motion {
        SelectionMotion::Left => pressed.left,
        SelectionMotion::Right => pressed.right,
        SelectionMotion::Up => pressed.up,
        SelectionMotion::Down => pressed.down,
        SelectionMotion::WordLeft => pressed.word_left,
        SelectionMotion::WordRight => pressed.word_right,
        SelectionMotion::LineStart => pressed.line_start,
        SelectionMotion::LineEnd => pressed.line_end,
    }
}

/// The order in which bindings are consulted: word movements before
/// character movements (so that a word binding shadows a character binding
/// on the same key), then vertical, then line movements.
pub open spec fn motion_priority() -> Seq<SelectionMotion> {
    seq![
        SelectionMotion::WordLeft,
        SelectionMotion::WordRight,
        SelectionMotion::Left,
        SelectionMotion::Right,
        SelectionMotion::Up,
        SelectionMotion::Down,
        SelectionMotion::LineStart,
        SelectionMotion::LineEnd,
    ]
}

/// The first motion at position `i` or later in priority order whose
/// binding matches, if any.
pub open spec fn first_match_from(pressed: MovementBindings, i: nat) -> Option<SelectionMotion>
    decreases motion_priority().len() - i,
{
    if i >= motion_priority().len() {
        None
    } else if binding_matches(pressed, motion_priority()[i as int]) {
        Some(motion_priority()[i as int])
    } else {
        first_match_from(pressed, i + 1)
    }
}

/// The first motion in priority order whose binding matches, if any.
pub open spec fn first_matching_motion(pressed: MovementBindings) -> Option<SelectionMotion> {
    first_match_from(pressed, 0)
}

} // verus!
