//! Desktop wallpaper sessions for a GPU line renderer: the decisions behind
//! window embedding, per-display render sessions, live settings and palette
//! extraction, stated as contracts and proved.

pub mod bins;
pub mod color;
pub mod control;
pub mod decode;
pub mod depth;
pub mod display;
pub mod embed;
pub mod menu;
pub mod palette;
pub mod paths;
pub mod pixel;
pub mod preferences;
pub mod ranking;
pub mod registry;
pub mod runloop;
pub mod session;
pub mod settings;
pub mod shell;
