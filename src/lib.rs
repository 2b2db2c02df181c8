//! One ICMP Echo Request/Reply exchange: building the request bytes, then
//! parsing and correlating whatever the transport hands back.
pub mod checksum;
pub mod decoder;
pub mod encoder;
