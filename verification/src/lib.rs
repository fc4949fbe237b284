//! The expression editor's surface logic: the state, decisions and byte
//! formats behind the painted roll, each with a contract.

pub mod envelopes;
pub mod demo;
pub mod guitar;
pub mod interaction;
pub mod quantize_panel;
pub mod scene_image;
pub mod theme;
pub mod text;
pub mod keys;
pub mod switcher;
pub mod roll_widget;
