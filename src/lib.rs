//! A boundary layer that lets a garbage-collected caller drive a
//! content-addressed blob store and a syncing document engine.
//!
//! The modules here hold the logic of that boundary: handle lifetimes,
//! argument validation, buffer and key-material conversion, the streaming
//! and cancellation protocol, and the projection of every failure into one
//! owned message.
pub mod author;
pub mod boundary;
pub mod buffer;
pub mod error;
pub mod events;
pub mod node;
pub mod ops;
pub mod registry;
pub mod signal;
pub mod stream;
pub mod subscription;
