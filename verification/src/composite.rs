//! The render engine handle: the default fallback font shared by every
//! composite of a document.

use std::sync::Arc;
use vstd::prelude::*;

verus! {

/// Renders documents into paper-on-desk scenes. Stores only the default
/// fallback font bytes, `Arc`-shared so no composite copies them.
pub struct RenderEngine {
    pub default_font_bytes: Arc<Vec<u8>>,
}

impl RenderEngine {
    /// An engine whose fallback font is `default_font_bytes` (shared, not
    /// copied).
    pub fn new(default_font_bytes: Arc<Vec<u8>>) -> (e: Self)
        ensures
            e.default_font_bytes == default_font_bytes,
    {
        Self { default_font_bytes }
    }
}

} // verus!
