//! Key-press and pointer visualisation logic: turning raw input events into the
//! text of on-screen "chips", together with the settings model, the chip rack of
//! the overlay and the small path computations around configuration files.

pub mod chip;
pub mod control;
pub mod debounce;
pub mod keyboard;
pub mod keymap;
pub mod pointer;
pub mod settings;
pub mod state;
pub mod texts;
pub mod xdg;
