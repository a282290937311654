//! Shift-extended text selection for a terminal text area: the selection
//! state (an optional anchor that pairs with the cursor), and the decision
//! which selection motion, if any, a key event asks for.

pub mod motion;
pub mod selection;
pub mod laws;
