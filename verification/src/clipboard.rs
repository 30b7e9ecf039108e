//! Clipboard collaborator seam. The OS clipboard call itself lives outside
//! the pipeline; a clipboard failure is never fatal to delivery.

use vstd::prelude::*;

verus! {

/// Clipboard manager for text operations.
pub struct Clipboard;

impl Clipboard {
    pub fn new() -> (r: Self) {
        Clipboard
    }

    /// Hand text to the clipboard collaborator. The OS call is made by the
    /// surrounding application; the pipeline itself never fails here.
    pub fn copy_text(&self, text: &str) -> (r: Result<(), String>)
        ensures
            r is Ok,
    {
        let _ = text;
        Ok(())
    }
}

impl Default for Clipboard {
    fn default() -> (r: Self)
        ensures
            r == Clipboard,
    {
        Clipboard::new()
    }
}

} // verus!
