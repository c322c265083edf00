//! The configuration the orchestrator consumes.
//!
//! The payload arrives from persisted storage outside this library; the
//! library only clamps its numeric ranges before use.

use vstd::prelude::*;
use crate::encode::PngCompressionMode;
use crate::encode::PngOptimizationLevel;
use crate::encode::spec_clamp_quality;

verus! {

/// The highest number of concurrent uploads the settings admit, and the
/// default for the field.
pub fn default_max_concurrent_uploads() -> (r: u8)
    ensures
        r == 5,
{
    5
}

/// Compression and upload settings, consumed verbatim by the
/// orchestrator after clamping.
#[derive(Debug, Clone)]
pub struct SettingsPayload {
    pub quality: u8,
    pub convert_to_webp: bool,
    pub force_animated_webp: bool,
    pub png_compression_mode: PngCompressionMode,
    pub png_optimization: PngOptimizationLevel,
    pub enable_upload_compression: bool,
    pub max_concurrent_uploads: u8,
}

impl Default for SettingsPayload {
    fn default() -> (r: Self)
        ensures
            r.quality == 80,
            !r.convert_to_webp,
            !r.force_animated_webp,
            r.png_compression_mode == PngCompressionMode::Lossless,
            !r.enable_upload_compression,
            r.png_optimization == PngOptimizationLevel::Default,
            r.max_concurrent_uploads == 5,
    {
        SettingsPayload {
            quality: 80,
            convert_to_webp: false,
            force_animated_webp: false,
            png_compression_mode: PngCompressionMode::Lossless,
            png_optimization: PngOptimizationLevel::Default,
            enable_upload_compression: false,
            max_concurrent_uploads: default_max_concurrent_uploads(),
        }
    }
}

impl SettingsPayload {
    /// The payload with every numeric field forced into its valid
    /// range: quality into 0..=100, the upload concurrency into 1..=5.
    pub fn clamped(self) -> (r: Self)
        ensures
            r.quality == spec_clamp_quality(self.quality),
            r.convert_to_webp == self.convert_to_webp,
            r.force_animated_webp == self.force_animated_webp,
            r.png_compression_mode == self.png_compression_mode,
            r.png_optimization == self.png_optimization,
            r.enable_upload_compression == self.enable_upload_compression,
            r.max_concurrent_uploads == if self.max_concurrent_uploads < 1 {
                1u8
            } else if self.max_concurrent_uploads > 5 {
                5u8
            } else {
                self.max_concurrent_uploads
            },
    {
        let max_up: u8 = if self.max_concurrent_uploads < 1 {
            1
        } else if self.max_concurrent_uploads > 5 {
            5
        } else {
            self.max_concurrent_uploads
        };
        SettingsPayload {
            quality: if self.quality > 100 {
                100
            } else {
                self.quality
            },
            convert_to_webp: self.convert_to_webp,
            force_animated_webp: self.force_animated_webp,
            png_compression_mode: self.png_compression_mode,
            png_optimization: self.png_optimization,
            enable_upload_compression: self.enable_upload_compression,
            max_concurrent_uploads: max_up,
        }
    }
}

} // verus!
