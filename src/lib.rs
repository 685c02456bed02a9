//! Native shell of a desktop chat application: tray menu routing,
//! minimize-to-tray window handling and the commands offered to the web layer.
pub mod text;
pub mod events;
pub mod shell;
pub mod tray;
pub mod commands;
