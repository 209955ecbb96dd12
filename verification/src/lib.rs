//! A small tunnel library: a byte-shift cipher, the length-prefixed frame
//! format that carries datagrams over a stream, the authentication message
//! sent when a stream is opened, and the relay decisions of both ends.

pub mod cipher;
pub mod frame;
pub mod auth;
pub mod relay;
