//! Client library for a market-data streaming feed and its REST companion API.
//!
//! The verified core covers the connection lifecycle of the streaming socket,
//! the subscription codec, the dispatch of received frames, the credential
//! header shared by every authenticated call, and the pure parts of the REST
//! operations (request URLs, response envelopes, the token exchange).
pub mod auth;
pub mod error;
pub mod models;
pub mod rest;
pub mod text;
pub mod websocket;
