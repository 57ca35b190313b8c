//! Driver core for an SHTP-style motion-sensor hub: packet framing,
//! channel demultiplexing, and sensor-report decoding into raw
//! fixed-point values, with the bus transport behind a narrow trait.

pub mod bno_common;
pub mod bno_constants;
pub mod bno_driver;
pub mod bno_packet;
pub mod bno_sensor_parsing;
pub mod interface;
