//! The streaming feed: subscription codec, frame dispatch and connection lifecycle.
pub mod frame;
pub mod general_socket;
pub mod handshake;
pub mod market_data;
pub mod subscription;

pub use general_socket::GeneralSocket;
pub use market_data::MarketDataSocket;
