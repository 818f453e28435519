//! Orientation coordination for a rotatable display.
//!
//! The library holds the logic of an orientation daemon: mapping raw sensor
//! labels to a closed orientation type, deciding when a new display transform
//! must be applied, buffering requests while the orientation is locked,
//! assembling the rule batch for the external display-control tool, and
//! decoding the control-channel wire format. All I/O stays outside.

pub mod control;
pub mod coordinator;
pub mod hyprctl;
pub mod orientation;

pub use orientation::Orientation;
