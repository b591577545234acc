//! Clipboard change detection.
//!
//! Reading and writing the host clipboard is a capability of the
//! operating system and stays in the shell; what is decided here is when
//! the text it reads counts as a change that must be pushed to the peer:
//! exactly when it differs from the last observed value.

use vstd::prelude::*;

verus! {

/// A clipboard snapshot: the text observed on the host clipboard, if
/// any, and when it was observed (seconds since the Unix epoch).
#[derive(Clone, Debug, PartialEq)]
pub struct ClipboardContent {
    pub text: Option<String>,
    pub timestamp: u64,
}

/// Tracks the last clipboard text seen and decides when a freshly read
/// text is a change worth sending.
pub struct ClipboardWatcher {
    last_text: Option<String>,
}

impl ClipboardWatcher {
    /// The last text observed, if any.
    pub closed spec fn last_seen(&self) -> Option<Seq<char>> {
        self.last_text.deep_view()
    }

    /// A watcher that has seen nothing yet: the first text observed
    /// counts as a change.
    pub fn new() -> (r: ClipboardWatcher)
        ensures
            r.last_seen() is None,
    {
        ClipboardWatcher { last_text: None }
    }

    /// Feeds one clipboard reading.  Exactly when the text differs from
    /// the last observed value, a snapshot stamped with the given time
    /// is returned for sending; either way the text becomes the last
    /// observed value.
    pub fn observe(&mut self, current: String, timestamp: u64) -> (r: Option<ClipboardContent>)
        ensures
            final(self).last_seen() == Some(current@),
            old(self).last_seen() == Some(current@) ==> r is None,
            old(self).last_seen() != Some(current@) ==> match r {
                Some(content) => content.text.deep_view() == Some(current@) && content.timestamp
                    == timestamp,
                None => false,
            },
    {
        let changed: bool = match &self.last_text {
            Some(previous) => !(*previous == current),
            None => true,
        };
        if changed {
            let stored = current.clone();
            self.last_text = Some(stored);
            Some(ClipboardContent { text: Some(current), timestamp })
        } else {
            None
        }
    }

    /// Records text this host itself just wrote to the clipboard, so
    /// that the write is not observed back as a fresh change.
    pub fn note_local_write(&mut self, text: &str)
        ensures
            final(self).last_seen() == Some(text@),
    {
        self.last_text = Some(text.to_owned());
    }
}

} // verus!
