//! Codec for a binary gimbal-control protocol: frame encoding for outbound
//! commands, validation and parsing of inbound acknowledgment frames, and the
//! 16-bit checksum that both directions share.

pub mod buffer;
pub mod checksum;
pub mod transport;
