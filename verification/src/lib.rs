//! Serialisation of IEEE 2030.5 resources to their XML representation, and the
//! fixed-width hexadecimal text form of the `HexBinary` primitive types.

pub mod hex_binary;
pub mod bytes_ser;
pub mod emitter_options;
pub mod ser;
