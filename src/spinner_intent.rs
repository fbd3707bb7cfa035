//! Messages consumed by a spinner worker.
use vstd::prelude::*;

verus! {

/// A request to one spinner worker, sent over that worker's own queue.
#[derive(Debug)]
pub enum SpinnerIntent {
    /// Replace the message shown next to the animation frame.
    Write(String),
    /// Stop the worker; it unpins its line on the way out.
    Exit,
}

/// A [`SpinnerIntent`] with its text seen as a character sequence.
pub enum SpinnerIntentView {
    Write(Seq<char>),
    Exit,
}

impl View for SpinnerIntent {
    type V = SpinnerIntentView;

    open spec fn view(&self) -> SpinnerIntentView {
        match self {
            SpinnerIntent::Write(t) => SpinnerIntentView::Write(t@),
            SpinnerIntent::Exit => SpinnerIntentView::Exit,
        }
    }
}

} // verus!
