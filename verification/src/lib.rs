//! The core of a terminal dashboard for Kanban boards: the tab-selection
//! state, the data-source requests and the decoding of their replies, the
//! frame that a renderer paints, and the event-driven loop that ties them
//! together. Everything here computes on plain values; reading files,
//! talking to the network and drawing to the terminal are left to the caller.

pub mod error;
pub mod entry;
pub mod navigation;
pub mod document;
pub mod decode;
pub mod config;
pub mod source;
pub mod frame;
pub mod event;
pub mod render_loop;
