//! Readiness-driven state machines for asynchronous ISO-TP sockets.
//!
//! An ISO-TP socket sends and receives whole payloads over CAN. To use one
//! from asynchronous code, somebody has to wait for the poller to report the
//! descriptor ready, try the non-blocking call, and wait again when the call
//! would block after all. This crate holds the decisions of that loop and
//! proves them; it makes no system call itself.
//!
//! * [`setup`] brings a socket up and hands out the [`IsoTpSocket`] handle.
//! * [`read`] and [`write`] are the single-shot operations, built on the
//!   state machine in [`operation`]; [`trace`] states what holds of every run
//!   of it.
//! * [`stream`] receives payloads one after another, [`sink`] sends them.
//! * [`outcome`] and [`readiness`] are the events that a driver reports.

pub mod operation;
pub mod outcome;
pub mod read;
pub mod readiness;
pub mod setup;
pub mod sink;
pub mod socket;
pub mod stream;
pub mod trace;
pub mod write;

pub use crate::read::IsoTpReadFuture;
pub use crate::socket::{Error, IsoTpSocket};
pub use crate::write::IsoTpWriteFuture;
