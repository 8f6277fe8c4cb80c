//! The logic of a wrapper for [libmpv], the embeddable mpv media player.
//!
//! Essentially everything in mpv is done through *commands* (load a file,
//! seek), *properties* (pause state, playback position, volume), and
//! *events*; see the [mpv reference][manual] for what's available.
//!
//! This crate decides and converts; it performs no call itself. Each operation
//! of a [`Handle`] gives a [`Call`](call::Call), a libmpv function with its
//! arguments, and what the call returned is read by a function of this crate.
//! Where several calls belong together, a state machine gives them one by one:
//! [`Startup`] for the start of a player, [`CallbackSlot`](slot::CallbackSlot)
//! for a callback registered with libmpv, [`SizeProbe`](stream_cb::SizeProbe)
//! for the size of a seekable source. Whoever links libmpv performs the calls.
//!
//! - [`client`]: the handles, and what each of their operations asks of libmpv
//! - [`property`]: reading and writing properties by type
//! - [`node`]: structured values, their C representation, and reading one back
//! - [`event`]: owned events
//! - [`error`]: errors, their codes and their texts
//! - [`render`]: embedded video rendering
//! - [`stream_cb`]: custom stream protocols
//! - [`slot`]: callbacks registered with libmpv
//! - [`cstring`]: C strings
//! - [`call`]: the calls
//! - [`link`]: how the library is linked
//! - [`sys`]: the constants and structs of the client API
//!
//! # Memory
//!
//! Structs of the C API refer to each other by pointers. Here they refer to
//! allocations of a [`NodeStorage`](node::NodeStorage) by index, and `None`
//! stands for the null pointer. Doubles are held as their bit pattern.
//!
//! [libmpv]: https://mpv.io/
//! [manual]: https://mpv.io/manual/stable/

pub mod call;
pub mod client;
pub mod cstring;
pub mod error;
pub mod event;
pub mod link;
pub mod node;
pub mod property;
pub mod render;
mod sealed;
pub mod slot;
pub mod stream_cb;
pub mod sys;

pub use client::{client_api_version, Builder, Client, Handle, Mpv, Reply, Startup};
pub use error::{Error, Result};
pub use event::{EndFileReason, Event, LogMessage, PropertyData};
pub use node::Node;
pub use property::{Format, GetProperty, SetProperty};
