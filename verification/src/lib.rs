//! Core of a live video relay: producer devices push image frames over
//! persistent connections, and every registered viewer gets each frame.
//!
//! The crate holds the decisions of the relay and none of its transport:
//!
//! - [`images`]: the codec that finds the producer's identifier inside a
//!   frame and strips it;
//! - [`stream_session`]: the protocol state machine of one connection, which
//!   reassembles fragmented frames and tells what is owed to the broker;
//! - [`stream_server`]: the broker, which keeps the registry of viewers and
//!   fans every frame out to them;
//! - [`client_message`] and [`message_types`]: the envelope on the wire;
//! - [`encoding`]: the text form of an image inside an envelope;
//! - [`admission`], [`config`] and [`time`]: what the program around the
//!   relay decides at start-up and when a peer connects.
//!
//! The connection layer feeds messages in and carries out the actions that
//! come back; nothing here reads a socket, a clock or the environment.

pub mod admission;
pub mod client_message;
pub mod config;
pub mod encoding;
pub mod images;
pub mod message_types;
pub mod stream_server;
pub mod stream_session;
pub mod time;
