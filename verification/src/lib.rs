//! Screen logic of the wallet installer: what each installer screen shows,
//! which of its actions are available, and the texts it displays.

pub mod duration;
pub mod text;
pub mod network;
pub mod threshold;
pub mod message;
pub mod hw;
pub mod screens;
