//! A driver that serves file reads and writes to a host runtime.
//!
//! The host asks by effects and is answered by pokes, both of them tree
//! values. This crate holds everything that the driver decides: how an
//! effect is decoded ([`codec`]), in what order the file system is asked
//! ([`driver`]), how the outcome is encoded and labelled ([`codec`],
//! [`wire`]). It performs no input or output itself: the driver is a state
//! machine that is told what happened and says what to do next.
//!
//! [`world`] and [`laws`] are mathematics only: a model of the driver in its
//! surroundings, and what is proved of it.

pub mod codec;
pub mod driver;
pub mod laws;
pub mod path;
pub mod text;
pub mod tree;
pub mod wire;
pub mod world;
