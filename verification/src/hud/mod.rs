//! The heads-up display: health hearts and the wave counter.
pub mod health;
pub mod wave_indicator;
