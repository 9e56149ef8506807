//! Binary wire codec for the SMPP session protocol: a header codec, a
//! tag-length-value (TLV) parameter codec, per-command PDU body codecs, and a
//! message splitter that breaks long texts into protocol-compliant parts.
//!
//! Every encoder states the exact byte sequence it produces, every decoder
//! states exactly which buffers it accepts and what it returns for them, and
//! the round-trip between the two is proved.

pub mod ancillary;
pub mod broadcast;
pub mod common;
pub mod data_sm;
pub mod delivery;
pub mod header;
pub mod receipt;
pub mod session;
pub mod splitter;
pub mod submission;
pub mod submit_multi;
pub mod tlv;
pub mod wire;
