//! A streaming audio playback engine: the decode/control loop as a verified
//! state machine, with exact integer time keeping, transport commands, the
//! published playback state and output configuration selection.
pub mod timing;
pub mod channels;
pub mod control;
pub mod engine;
pub mod output;
pub mod laws;
