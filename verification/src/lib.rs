//! Verified decision core of a text-to-3D media pipeline.
//!
//! The pipeline takes a text prompt, has a remote language service rewrite it,
//! submits the rewritten prompt to a remote video-generation job, polls that
//! job to completion, downloads the resulting video, samples frames from it at
//! fixed timestamps, and uploads the frames to a local reconstruction server.
//!
//! All network, subprocess and filesystem work is performed by a thin
//! unverified shell around this crate.  What this crate holds — and what is
//! verified — is every decision the pipeline makes: which prompt is submitted,
//! when the poll loop stops and with what outcome, which frame indices are
//! sampled and under which names, when an upload or an extraction must be
//! refused, and how each failure is classified.

pub mod errors;
pub mod frames;
pub mod job;
pub mod pipeline;
pub mod prompt;
pub mod retrieve;
pub mod text;
pub mod upload;
