//! Marker types that tell the operating modes of the driver apart at compile
//! time.

pub mod mode;
