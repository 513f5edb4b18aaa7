//! Control core of a single-board FM radio: input decoding, the cursor-driven
//! user interface state machine and the tuner polling coordinator.

pub mod button;
pub mod dispatch_laws;
pub mod encoder;
pub mod event;
pub mod presets;
pub mod ring;
pub mod state;
pub mod tuner;
pub mod tuner_laws;
