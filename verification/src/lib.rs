//! Clipboard history manager: the rules that decide what is stored, how the
//! stored history evolves, and how tray and window events are answered.
pub mod digest;
pub mod text;
pub mod history;
pub mod monitor;
pub mod tray;
pub mod icon;
pub mod ui;
pub mod store;
