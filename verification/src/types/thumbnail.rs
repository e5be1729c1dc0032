//! A thumbnail image or animation.

use vstd::prelude::*;
use crate::types::file::File;

verus! {

/// Describes format of a thumbnail.
#[derive(Clone, Copy, Debug)]
pub enum ThumbnailFormat {
    /// No format chosen yet.
    _Default,
    Gif,
    Jpeg,
    Mpeg4,
    Png,
    Tgs,
    Webm,
    Webp,
}

impl Default for ThumbnailFormat {
    fn default() -> (r: Self)
        ensures
            r == ThumbnailFormat::_Default,
    {
        ThumbnailFormat::_Default
    }
}

/// Represents a thumbnail.
#[derive(Clone, Copy, Debug)]
pub struct Thumbnail {
    /// Thumbnail format
    pub format: ThumbnailFormat,
    /// Thumbnail width
    pub width: i32,
    /// Thumbnail height
    pub height: i32,
    /// The thumbnail
    pub file: File,
}

impl Default for Thumbnail {
    fn default() -> (r: Self)
        ensures
            r == (Thumbnail {
                format: ThumbnailFormat::_Default,
                width: 0,
                height: 0,
                file: File { id: 0, size: 0, expected_size: 0 },
            }),
    {
        Thumbnail {
            format: ThumbnailFormat::_Default,
            width: 0,
            height: 0,
            file: File { id: 0, size: 0, expected_size: 0 },
        }
    }
}

} // verus!
