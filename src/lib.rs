//! The verified core of a desktop shell's native bridge: the Do-Not-Disturb
//! status bridge (which tool to run on each platform and how to read what it
//! prints), the tray menu and the routing of its clicks, and the mapping of
//! file, notification and dialog outcomes into the values handed to the UI.
pub mod dnd;
pub mod outcome;
pub mod text;
pub mod tray;
