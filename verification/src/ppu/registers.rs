//! The register file of the graphics unit.

pub mod addr;
pub mod control;
pub mod mask;
pub mod scroll;
pub mod status;

pub use addr::AddrRegister;
pub use control::ControlRegister;
pub use mask::{Color, MaskRegister};
pub use scroll::ScrollRegister;
pub use status::StatusRegister;
