//! A symmetric "sign and verify" library: a keyed MAC (HMAC over SHA3-256)
//! with key generation, a transport-safe text codec for keys and tags, and a
//! handle-based boundary layer that owns the buffers it hands out.

pub mod boundary;
pub mod codec;
pub mod crypto;
