//! The integer side of sound generation.

pub mod noise;

pub use noise::NoiseRandom;
