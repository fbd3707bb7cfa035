//! The status line of a console: its frames, message, speed, and whether
//! it is shown.
use vstd::prelude::*;

verus! {

/// The spinner of a console.
#[derive(Debug, Clone, PartialEq)]
pub struct SpinnerState {
    pub chars: Vec<String>,
    pub message: String,
    pub speed: u64,
    pub started: bool,
}

/// A [`SpinnerState`] seen as plain values.
pub struct SpinnerStateView {
    pub chars: Seq<Seq<char>>,
    pub message: Seq<char>,
    pub speed: u64,
    pub started: bool,
}

impl View for SpinnerState {
    type V = SpinnerStateView;

    open spec fn view(&self) -> SpinnerStateView {
        SpinnerStateView {
            chars: self.chars@.map_values(|c: String| c@),
            message: self.message@,
            speed: self.speed,
            started: self.started,
        }
    }
}

} // verus!
