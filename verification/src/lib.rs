//! An icon in the macOS status bar, and the means to change it from any thread.
//!
//! The native status item may be touched by one thread at a time only. This library
//! holds what has to be decided around that: `handle` keeps a native object behind a
//! lock, `channel` carries events from any number of producers to one consumer,
//! `consumer` is the loop that applies them, `tray` is the controller that the host
//! program holds, `icon` has the display sizes and the outcomes of displaying, and
//! `error` the ways to fail. The calls into the operating system are the caller's:
//! the library takes native objects as addresses and hands each native operation the
//! address, the bytes and the size to work on.

pub mod channel;
pub mod consumer;
pub mod error;
pub mod event;
pub mod handle;
pub mod icon;
pub mod tray;

pub use crate::channel::Emitter;
pub use crate::consumer::Consumer;
pub use crate::error::Error;
pub use crate::event::OsxSystemTrayEvent;
pub use crate::handle::SafeId;
pub use crate::tray::OsxSystemTray;
