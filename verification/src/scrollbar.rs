//! The transcript's overlay scrollbar: when its rail shows and when its thumb
//! is emphasised.
use vstd::prelude::*;

verus! {

/// Hover and drag state of the transcript's rail.
#[derive(Debug, Clone, Copy, PartialEq, Eq, Structural)]
pub struct TranscriptScrollbarState {
    pub viewport_hovered: bool,
    pub bar_hovered: bool,
    /// A drag holds the thumb.
    pub grabbed: bool,
}

impl Default for TranscriptScrollbarState {
    fn default() -> (r: Self)
        ensures
            !r.viewport_hovered && !r.bar_hovered && !r.grabbed,
    {
        TranscriptScrollbarState { viewport_hovered: false, bar_hovered: false, grabbed: false }
    }
}

impl TranscriptScrollbarState {
    /// The rail paints.
    pub open spec fn is_visible(self) -> bool {
        self.viewport_hovered || self.grabbed
    }

    /// The thumb is emphasised.
    pub open spec fn is_active(self) -> bool {
        self.bar_hovered || self.grabbed
    }

    /// The pointer is over the transcript, or not.
    pub open spec fn over_viewport(self, hovered: bool) -> Self {
        TranscriptScrollbarState {
            viewport_hovered: hovered,
            bar_hovered: self.bar_hovered && (hovered || self.grabbed || !self.viewport_hovered),
            grabbed: self.grabbed,
        }
    }

    /// The pointer is over the rail, or not.
    pub open spec fn over_bar(self, hovered: bool) -> Self {
        TranscriptScrollbarState { bar_hovered: hovered || self.grabbed, ..self }
    }

    /// The drag is over.
    pub open spec fn released(self) -> Self {
        TranscriptScrollbarState {
            viewport_hovered: self.viewport_hovered,
            bar_hovered: self.bar_hovered && (!self.grabbed || self.viewport_hovered),
            grabbed: false,
        }
    }

    /// Whether the rail paints at all: only over the transcript, or while a
    /// drag holds it.
    pub fn visible(&self) -> (r: bool)
        ensures
            r == self.is_visible(),
    {
        self.viewport_hovered || self.grabbed
    }

    /// Whether the thumb carries the expanded treatment.
    pub fn active(&self) -> (r: bool)
        ensures
            r == self.is_active(),
    {
        self.bar_hovered || self.grabbed
    }

    /// The pointer entered or left the transcript. Leaving disarms the bar
    /// unless a drag holds it. Returns whether anything changed.
    pub fn set_viewport_hovered(&mut self, hovered: bool) -> (r: bool)
        ensures
            r == (old(self).viewport_hovered != hovered),
            *final(self) == old(self).over_viewport(hovered),
    {
        if self.viewport_hovered == hovered {
            return false;
        }
        self.viewport_hovered = hovered;
        if !hovered && !self.grabbed {
            self.bar_hovered = false;
        }
        true
    }

    /// The pointer entered or left the rail; a drag keeps it active outside.
    /// Returns whether anything changed.
    pub fn set_bar_hovered(&mut self, hovered: bool) -> (r: bool)
        ensures
            r == (old(self).bar_hovered != (hovered || old(self).grabbed)),
            *final(self) == old(self).over_bar(hovered),
    {
        let active: bool = hovered || self.grabbed;
        if self.bar_hovered == active {
            return false;
        }
        self.bar_hovered = active;
        true
    }

    /// A press landed on the rail: the drag is engaged.
    pub fn press(&mut self)
        ensures
            *final(self) == (TranscriptScrollbarState { grabbed: true, ..*old(self) }),
    {
        self.grabbed = true;
    }

    /// The press ended anywhere: the drag is dropped, and the bar with it
    /// where the pointer has left the transcript. Returns whether a drag was
    /// in progress.
    pub fn release(&mut self) -> (r: bool)
        ensures
            r == old(self).grabbed,
            *final(self) == old(self).released(),
    {
        let was_dragging: bool = self.grabbed;
        self.grabbed = false;
        if was_dragging && !self.viewport_hovered && self.bar_hovered {
            self.bar_hovered = false;
        }
        was_dragging
    }
}

/// A drag keeps the rail painted and emphasised wherever the pointer goes.
pub proof fn a_drag_keeps_the_rail(state: TranscriptScrollbarState, hovered: bool)
    requires
        state.grabbed,
    ensures
        state.over_viewport(hovered).is_visible() && state.over_viewport(hovered).is_active(),
        state.over_bar(hovered).is_visible() && state.over_bar(hovered).is_active(),
{
}

/// A drag released outside the transcript hides the rail and drops its
/// emphasis.
pub proof fn a_release_outside_hides_the_rail(state: TranscriptScrollbarState)
    requires
        state.grabbed,
        !state.viewport_hovered,
    ensures
        !state.released().is_visible(),
        !state.released().is_active(),
{
}

} // verus!
