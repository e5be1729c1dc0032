//! A file known to the platform.

use vstd::prelude::*;

verus! {

/// Represents a file.
#[derive(Clone, Copy, Debug)]
pub struct File {
    /// Unique file identifier
    pub id: i32,
    /// File size, in bytes; 0 if unknown
    pub size: i64,
    /// Approximate file size in bytes in case the exact size is unknown
    pub expected_size: i64,
}

impl Default for File {
    fn default() -> (r: Self)
        ensures
            r == (File { id: 0, size: 0, expected_size: 0 }),
    {
        File { id: 0, size: 0, expected_size: 0 }
    }
}

} // verus!
