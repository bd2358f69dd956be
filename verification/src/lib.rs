//! The decision logic of the "mordo" Discord bot: what each command answers,
//! how incoming chat messages are handled, how a dot is painted on a canvas,
//! and the start-up decisions of the daemon.

pub mod canvas;
pub mod reply;
pub mod commands;
pub mod thread;
pub mod events;
pub mod startup;
pub mod prefix_bot;
