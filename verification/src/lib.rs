//! The verified core of the Capptivo desktop recorder: its hotkeys, the command-line channel
//! that automation drives it through, and the status file that tells automation where it is.

pub mod area_picker;
pub mod automation;
pub mod clock;
pub mod command_line;
pub mod hotkeys;
pub mod json;
pub mod lifecycle;
pub mod publish;
pub mod text;
