//! Application menu of the animator's desktop shell: a model of the menu tree,
//! its construction for each platform configuration, and the table that turns
//! menu activations into notifications for the main window.

pub mod coverage;
pub mod dispatch;
pub mod menu;
pub mod text;
