//! Media transcoding and thumbnail-caching pipeline.
//!
//! The library classifies image bytes by container signature, dispatches
//! per-format encoders, preserves batch order under per-item failure,
//! and models the thumbnail cache with its content-addressed keys, the
//! resilient downloader's retry policy, and the single-flight lock.

pub mod batch;
pub mod cache;
pub mod download;
pub mod encode;
pub mod errors;
pub mod format;
pub mod guard;
pub mod pixels;
pub mod records;
pub mod s3util;
pub mod settings;
pub mod strutil;
pub mod thumb;
pub mod upload_util;
