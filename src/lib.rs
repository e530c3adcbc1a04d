//! Conversion of byte counts into binary (1024-based) storage units.
//!
//! A [`ByteConverter`] holds a byte count. Each conversion returns the exact
//! value in the chosen unit, as a whole part and a remainder in bytes, together
//! with the unit it is measured in. The divisors are powers of 1024: the IEC
//! binary prefixes, never the decimal ones.

pub mod byte_converter;
pub mod units;

pub use byte_converter::ByteConverter;
pub use byte_converter::Scaled;
pub use units::Unit;
pub use units::GB;
pub use units::KB;
pub use units::MB;
pub use units::TB;
