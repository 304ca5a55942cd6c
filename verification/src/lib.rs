pub mod duty;
pub mod sine;
pub mod waveform;
