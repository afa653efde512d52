//! The logic of a desktop screen-recorder shell: its settings cache, the
//! placement and pinning of its main window, its tray menu, its start-up
//! decisions and the pacing of its capture loops.
pub mod capture;
pub mod config;
pub mod lifecycle;
mod text;
pub mod tray;
pub mod windows;
