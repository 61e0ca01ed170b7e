//! A bridge between a single-threaded, callback-driven GUI toolkit and safe
//! Rust: the bookkeeping and the decisions of the bridge, as verified code on
//! plain values.
//!
//! The toolkit owns every object and runs the event loop. This library never
//! calls it. Addresses of toolkit objects, of boxed closures and of futures
//! are held as `usize`; a caller makes the toolkit calls, hands in what they
//! returned, and is told what to hand to the toolkit next.
//!
//! - [`ffi_tools`] and [`ui`]: one running instance per process, and the
//!   steps of the event loop.
//! - [`handle`], [`controls`], [`window`], [`menus`], [`area`], [`image`]:
//!   typed handles and the values that cross over with them; the registry of
//!   live windows, and the menus that are final once a window exists.
//! - [`callback`]: which closure answers which event of which object.
//! - [`concurrent`]: the main queue, first in first out, and the cells of the
//!   tasks that are polled through it, one poll at a time.

pub mod area;
pub mod callback;
pub mod concurrent;
pub mod controls;
pub mod error;
pub mod ffi_tools;
pub mod handle;
pub mod image;
pub mod menus;
pub mod ui;
pub mod window;
