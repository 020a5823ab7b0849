//! The decision core of a bridge between a scripting runtime, a native
//! windowing event loop and an embedded content view.
//!
//! Nothing in this crate blocks, awaits or touches a platform handle. Every
//! module is a small state machine or a pure function over plain values; the
//! program around it performs the outside work (pumping the native loop,
//! submitting scripts, waking tasks) and reports back what happened.
//!
//! - [`registry`]: the live windows and their content views.
//! - [`event`] and [`bridge`]: what one sweep of the native loop amounts to,
//!   and the state machine that alternates sweeps and callback invocations.
//! - [`evaluation`]: the single-slot cell between a submitted script and the
//!   task that waits for its result.
//! - [`ipc`]: the message channel of a content view, with any number of
//!   independent subscribers.
//! - [`decode`]: the decoding of payload text.
//! - [`conversion`], [`config`], [`message`], [`webview`], [`surface`]: the
//!   script-facing side.
//! - [`error`]: the kinds of failure and how far each reaches.

pub mod bridge;
pub mod config;
pub mod conversion;
pub mod decode;
pub mod error;
pub mod evaluation;
pub mod event;
pub mod ipc;
pub mod message;
pub mod registry;
pub mod surface;
pub mod webview;
