//! Connection-admission layer of a transparent proxy: for each inbound TCP
//! connection it decides, before any application byte is destructively
//! consumed, whether the connection is forwarded unmodified or has its
//! protocol detected, and whether it carries mutual TLS that the proxy must
//! terminate. Every decision is made over plain byte values; the sockets,
//! handshakes and task plumbing live outside this crate.

pub mod addr;
pub mod client_hello;
pub mod detector;
pub mod dispatch;
pub mod identity;
pub mod replay;
pub mod sniff;
