//! The register files of the audio channels.

pub mod noise;
pub mod pulse;
pub mod square;
pub mod triangle;

pub use noise::NoiseRegister;
pub use pulse::PulseRegister;
pub use square::SquareRegister;
pub use triangle::TriangleRegister;
