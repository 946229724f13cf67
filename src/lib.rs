//! Keyboard and window events turned into Vim-style keybinding notation
//! (`<C-a>`, `<Esc>`, `x`), with modifier tracking, per-frame buffering and
//! suppression of the input that arrives in the frame the window regains focus.
pub mod keys;
pub mod notation;
pub mod manager;
pub mod laws;

pub use keys::{ElementState, KeyEvent, LogicalKey};
pub use manager::{InputEvent, KeyboardManager, Modifiers};
