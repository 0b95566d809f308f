//! A minimal modal editor core: key events are classified by the current
//! mode into actions, actions move the cursor or switch the mode, and a
//! status line reports the mode and the cursor position.

pub mod input;
pub mod editor;
pub mod status;
pub mod laws;
