//! Messages consumed by the output coordinator.
use vstd::prelude::*;

verus! {

/// A request to the output coordinator. Requests travel over one queue and
/// each is handled exactly once, in the order it was sent.
#[derive(Debug)]
pub enum OutputIntent {
    /// Append text to the scroll buffer.
    Write(String),
    /// Discard the scroll buffer unprinted.
    Drain,
    /// Print the scroll buffer and repaint the pinned lines.
    Flush,
    /// Create or replace the pinned text of an id.
    Pin(String, String),
    /// Remove the pinned text of an id.
    Unpin(String),
    /// Stop the coordinator.
    Exit,
}

/// An [`OutputIntent`] with its strings seen as character sequences.
pub enum IntentView {
    Write(Seq<char>),
    Drain,
    Flush,
    Pin(Seq<char>, Seq<char>),
    Unpin(Seq<char>),
    Exit,
}

impl View for OutputIntent {
    type V = IntentView;

    open spec fn view(&self) -> IntentView {
        match self {
            OutputIntent::Write(t) => IntentView::Write(t@),
            OutputIntent::Drain => IntentView::Drain,
            OutputIntent::Flush => IntentView::Flush,
            OutputIntent::Pin(id, t) => IntentView::Pin(id@, t@),
            OutputIntent::Unpin(id) => IntentView::Unpin(id@),
            OutputIntent::Exit => IntentView::Exit,
        }
    }
}

} // verus!
