//! What each installer screen shows and which of its actions are available.
//! Each function takes the state that the screen reads and returns, as plain
//! values, every choice that the screen makes: which parts appear, which
//! buttons can be pressed, and the texts that depend on the state.

pub mod common;
pub mod sequence;
pub mod descriptor;
pub mod devices;
pub mod steps;
pub mod mnemonic;
