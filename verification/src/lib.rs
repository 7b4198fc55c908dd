//! Typed core of a client for a remote screenshot-capture HTTP API.
//!
//! The crate holds everything that is decided locally: how a request is
//! built and validated, which keys its wire payload carries, which HTTP call
//! stands for an operation, and how a reply is turned into a typed result or
//! a typed error. It performs no I/O itself; a transport makes the call that
//! [`Pxshot`] describes and hands back what it received.

pub mod client;
pub mod error;
pub mod exchange;
pub mod format;
pub mod http;
pub mod request;
pub mod response;
pub mod text;
pub mod wire;

pub use client::{HttpCall, Method, Pxshot};
pub use exchange::{
    BytesReply, Capture, CaptureReply, FailedReply, StoredReply, UsageBody, UsageQuery,
    UsageReply,
};
pub use error::Error;
pub use format::{ImageFormat, WaitUntil};
pub use request::{RequestModel, ScaleFactor, ScreenshotRequest, ScreenshotRequestBuilder};
pub use response::{ScreenshotResponse, StoredScreenshot, Timestamp, Usage};
pub use wire::{WireField, WireValue};
