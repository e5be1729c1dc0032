//! The kinds of stickers.

use vstd::prelude::*;

verus! {

/// Describes type of a sticker.
#[derive(Clone, Copy, Debug)]
pub enum StickerType {
    /// No type chosen yet.
    _Default,
    /// The sticker is a custom emoji to be used inside message text and caption
    CustomEmoji,
    /// The sticker is a mask in WEBP format to be placed on photos or videos
    Mask,
    /// The sticker is a regular sticker
    Regular,
}

impl Default for StickerType {
    fn default() -> (r: Self)
        ensures
            r == StickerType::_Default,
    {
        StickerType::_Default
    }
}

impl StickerType {
    /// True exactly when no type was chosen.
    pub fn _is_default(&self) -> (r: bool)
        ensures
            r == (*self == StickerType::_Default),
    {
        match self {
            StickerType::_Default => true,
            _ => false,
        }
    }
}

} // verus!
