//! The per-connection core of a QUIC endpoint: the stream-concurrency
//! controller and the assembler of application-space packet payloads.

pub mod application;
pub mod context;
pub mod controller;
pub mod event;
pub mod frame;
pub mod interest;
pub mod local_controller;
pub mod manager;
pub mod path;
pub mod producer;
pub mod remote_controller;
pub mod stream;
pub mod sync;
pub mod varint;
pub mod waiters;
