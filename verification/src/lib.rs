//! A minimal `cp` between the local filesystem and a cloud storage bucket.
//!
//! The library is the decision core of the tool: it classifies the two raw
//! arguments into local paths or remote locators, validates that exactly one
//! side is local, derives the destination object name for an upload, and
//! builds the remote store's upload and download requests. Everything here is
//! pure or, where it calls the remote store's request builder, behind a
//! stated boundary; opening files, sending requests and streaming bytes are
//! left to the program around the library.

pub mod direction;
pub mod errors;
pub mod gcs;
pub mod locator;
pub mod naming;
pub mod plan;
