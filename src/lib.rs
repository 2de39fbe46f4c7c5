//! A SOCKS version 5 proxy core: the handshake negotiation, the address
//! codec, the reply framer and the decisions of the duplex byte relay, each
//! stated and proved over plain byte sequences. Sockets, name resolution and
//! the readiness loop are driven by the caller.

pub mod address;
pub mod error;
pub mod handshake;
pub mod relay;
pub mod reply;
pub mod session;
