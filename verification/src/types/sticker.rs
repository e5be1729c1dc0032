//! One sticker of a set.

use vstd::prelude::*;
use crate::types::file::File;
use crate::types::sticker_type::StickerType;

verus! {

/// Describes a sticker.
#[derive(Clone, Copy, Debug)]
pub struct Sticker {
    /// The identifier of the sticker set to which the sticker belongs; 0 if none
    pub set_id: i64,
    /// Sticker width; as defined by the sender
    pub width: i32,
    /// Sticker height; as defined by the sender
    pub height: i32,
    /// Sticker type
    pub sticker_type: StickerType,
    /// File containing the sticker
    pub sticker: File,
}

impl Default for Sticker {
    fn default() -> (r: Self)
        ensures
            r == (Sticker {
                set_id: 0,
                width: 0,
                height: 0,
                sticker_type: StickerType::_Default,
                sticker: File { id: 0, size: 0, expected_size: 0 },
            }),
    {
        Sticker {
            set_id: 0,
            width: 0,
            height: 0,
            sticker_type: StickerType::_Default,
            sticker: File { id: 0, size: 0, expected_size: 0 },
        }
    }
}

} // verus!
