//! Decision logic of a chat bot that fits images into a 512x512 square.
//!
//! The crate holds the conversation state machine, the media pipeline's
//! step function, the image transform and the bookkeeping around them.
//! Network and file access stay with the caller, which performs the
//! requests this crate hands out and reports back what happened.

pub mod commands;
pub mod dialogue;
pub mod env;
pub mod error;
pub mod event;
pub mod pipeline;
pub mod polling;
pub mod resize_image_handler;
pub mod session;
pub mod source;
pub mod transformer;
pub mod webhook;
