//! The subtitle cue that is on screen, and the cell through which the decode
//! worker hands it to whoever presents it.

use vstd::prelude::*;

verus! {

/// Whether a cue is due while a frame is shown: the two spans of running time
/// overlap. A cue that ends exactly where the frame starts is not due, nor is
/// one that starts exactly where the frame ends.
pub open spec fn overlaps(cue_start: int, cue_end: int, frame_start: int, frame_end: int) -> bool {
    cue_end > frame_start && frame_end > cue_start
}

/// Whether a cue is due while a frame is shown.
pub fn cue_overlaps(cue_start: i64, cue_end: i64, frame_start: i64, frame_end: i64) -> (due: bool)
    ensures
        due == overlaps(cue_start as int, cue_end as int, frame_start as int, frame_end as int),
{
    cue_end > frame_start && frame_end > cue_start
}

/// What a cue store holds.
pub struct CueStoreView {
    /// The text on screen, if any.
    pub text: Option<Seq<char>>,
    /// Whether the text was set or cleared since the change was last taken.
    pub changed: bool,
}

impl CueStoreView {
    /// The store after a cue came on screen.
    pub open spec fn shown(self, text: Seq<char>) -> CueStoreView {
        CueStoreView { text: Some(text), changed: true }
    }

    /// The store after the cue was taken off screen.
    pub open spec fn cleared(self) -> CueStoreView {
        CueStoreView { text: None, changed: true }
    }

    /// The store after its change was taken.
    pub open spec fn taken(self) -> CueStoreView {
        CueStoreView { text: self.text, changed: false }
    }

    /// What taking the change returns: the text on screen, if it changed.
    pub open spec fn change(self) -> Option<Option<Seq<char>>> {
        if self.changed {
            Some(self.text)
        } else {
            None
        }
    }
}

/// The subtitle text on screen, with a flag that tells whether it changed.
#[derive(Debug)]
pub struct CueStore {
    text: Option<String>,
    changed: bool,
}

impl View for CueStore {
    type V = CueStoreView;

    closed spec fn view(&self) -> CueStoreView {
        CueStoreView {
            text: match self.text {
                Some(t) => Some(t@),
                None => None,
            },
            changed: self.changed,
        }
    }
}

/// The text of a change as plain characters.
pub open spec fn change_view(change: Option<Option<String>>) -> Option<Option<Seq<char>>> {
    match change {
        Some(Some(t)) => Some(Some(t@)),
        Some(None) => Some(None),
        None => None,
    }
}

impl CueStore {
    /// A store with no text on screen and no change to report.
    pub fn new() -> (store: CueStore)
        ensures
            store@.text is None,
            !store@.changed,
    {
        CueStore { text: None, changed: false }
    }

    /// Puts a cue on screen.
    pub fn show(&mut self, text: String)
        ensures
            final(self)@ == old(self)@.shown(text@),
    {
        self.text = Some(text);
        self.changed = true;
    }

    /// Takes the cue off screen. A store without a cue reports a change too.
    pub fn clear(&mut self)
        ensures
            final(self)@ == old(self)@.cleared(),
    {
        self.text = None;
        self.changed = true;
    }

    /// Whether the text changed since the change was last taken.
    pub fn is_changed(&self) -> (changed: bool)
        ensures
            changed == self@.changed,
    {
        self.changed
    }

    /// Returns the text on screen if it changed since the last call, and
    /// marks the change as taken.
    pub fn take_change(&mut self) -> (change: Option<Option<String>>)
        ensures
            final(self)@ == old(self)@.taken(),
            change_view(change) == old(self)@.change(),
    {
        if self.changed {
            self.changed = false;
            match &self.text {
                Some(t) => Some(Some(t.clone())),
                None => Some(None),
            }
        } else {
            None
        }
    }
}

} // verus!
