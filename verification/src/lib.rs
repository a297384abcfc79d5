//! Verified core of a channel video downloader.
//!
//! The library holds the decision logic of the tool: the domain model,
//! endpoint URL construction, file-name derivation, per-video download
//! planning, and the batch bookkeeping of the channel orchestrator.
//! The surrounding binary performs the HTTP requests and file writes and
//! feeds their outcomes back into these verified functions.

pub mod model;
pub mod text;
pub mod endpoints;
pub mod download;
pub mod batch;
pub mod dispatch;
