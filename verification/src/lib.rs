//! Presence tracking rules and the self-update pipeline of the Figma
//! rich-presence tray application, with machine-checked contracts.

pub mod figma;
pub mod logging;
pub mod presence;
pub mod settings;
pub mod text;
pub mod updater;
