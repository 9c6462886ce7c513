//! Serial (auto-increment) integers: a generator of unique, strictly
//! increasing identifiers that saturates at the type's maximum instead of
//! wrapping around.

pub mod serial;
pub mod serial_generator;
pub mod sequence;

pub use serial::Serial;
pub use serial_generator::SerialGenerator;
