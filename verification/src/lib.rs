pub mod classifier;
pub mod decimal;
pub mod sequencer;
