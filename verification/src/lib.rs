//! The client-side relay core of an encrypted tunnel proxy.
//!
//! A client speaks SOCKS5 or HTTP to the relay; the relay picks a proxy
//! server, has a tunnel opened to it, and passes the client's bytes through.
//! Everything here is a state machine or a function on plain values: a thin
//! I/O layer reads sockets, resolves names and dials, and asks this crate
//! what to do with each event.
//!
//! - [`acceptor`], [`selector`], [`dns_cache`], [`forbidden`]: which proxy
//!   server serves a connection.
//! - [`socks5`], [`socks5_front`]: the SOCKS5 wire format and front-end.
//! - [`http_head`], [`http_target`], [`http_reading`], [`http_front`]: the
//!   HTTP front-end, with the heads read by `httparse` and the targets by
//!   `url`.
//! - [`pump`]: the two directions of a relayed connection.
//! - [`local_server`]: the configuration and the relay made of it.
//! - [`front_laws`], [`selector_laws`]: what holds over whole runs.

pub mod acceptor;
pub mod addr;
pub mod dns_cache;
pub mod forbidden;
pub mod front;
pub mod front_laws;
pub mod http_front;
pub mod http_head;
pub mod http_reading;
pub mod http_target;
pub mod local_server;
pub mod pump;
pub mod selector;
pub mod selector_laws;
pub mod socks5;
pub mod socks5_front;
pub mod wire;

pub use local_server::{Config, TcpRelayLocal};
