//! One spinner worker: the decisions of an animated pinned line, one tick
//! at a time. Whoever runs the worker polls its queue, hands the result to
//! [`SpinnerWorker::tick`], sends the returned intent to the coordinator,
//! and sleeps for the spinner's interval unless the worker has stopped.
use vstd::prelude::*;
use crate::output_intent::{IntentView, OutputIntent};
use crate::spinner::{current_frame, render, rotated, Spinner, SpinnerView};
use crate::spinner_intent::{SpinnerIntent, SpinnerIntentView};

verus! {

/// A [`SpinnerWorker`] seen as plain values.
pub struct WorkerView {
    pub spinner: SpinnerView,
    pub id: Seq<char>,
    pub data: Seq<char>,
    pub stopped: bool,
}

pub open spec fn polled_view(p: Option<SpinnerIntent>) -> Option<SpinnerIntentView> {
    match p {
        Some(i) => Some(i@),
        None => None,
    }
}

/// The worker after one tick on which `polled` was taken from its queue.
pub open spec fn tick_next(w: WorkerView, polled: Option<SpinnerIntentView>) -> WorkerView {
    match polled {
        Some(SpinnerIntentView::Exit) => WorkerView { stopped: true, ..w },
        Some(SpinnerIntentView::Write(d)) => WorkerView {
            data: d,
            spinner: SpinnerView { frames: rotated(w.spinner.frames), ..w.spinner },
            ..w
        },
        None => WorkerView {
            spinner: SpinnerView { frames: rotated(w.spinner.frames), ..w.spinner },
            ..w
        },
    }
}

/// The intent that the worker sends to the coordinator on that tick: its
/// final unpin on `Exit`, else its line rendered with the next frame.
pub open spec fn tick_emits(w: WorkerView, polled: Option<SpinnerIntentView>) -> IntentView {
    match polled {
        Some(SpinnerIntentView::Exit) => IntentView::Unpin(w.id),
        Some(SpinnerIntentView::Write(d)) => IntentView::Pin(
            w.id,
            render(w.spinner.tpl, current_frame(w.spinner.frames), d),
        ),
        None => IntentView::Pin(w.id, render(w.spinner.tpl, current_frame(w.spinner.frames), w.data)),
    }
}

/// What the worker sends over a run of ticks, and its state afterwards.
pub open spec fn run_ticks(w: WorkerView, polls: Seq<Option<SpinnerIntentView>>) -> (
    WorkerView,
    Seq<IntentView>,
)
    decreases polls.len(),
{
    if polls.len() == 0 || w.stopped {
        (w, Seq::empty())
    } else {
        let rest = run_ticks(tick_next(w, polls[0]), polls.skip(1));
        (rest.0, seq![tick_emits(w, polls[0])] + rest.1)
    }
}

/// The state of one animated pinned line.
#[derive(Debug)]
pub struct SpinnerWorker {
    spinner: Spinner,
    id: String,
    data: String,
    stopped: bool,
}

impl View for SpinnerWorker {
    type V = WorkerView;

    closed spec fn view(&self) -> WorkerView {
        WorkerView { spinner: self.spinner@, id: self.id@, data: self.data@, stopped: self.stopped }
    }
}

impl SpinnerWorker {
    /// A running worker for the line `id`, showing `data` until told
    /// otherwise.
    pub fn new(spinner: Spinner, id: String, data: String) -> (r: SpinnerWorker)
        ensures
            r@ == (WorkerView { spinner: spinner@, id: id@, data: data@, stopped: false }),
    {
        SpinnerWorker { spinner, id, data, stopped: false }
    }

    /// The id of the worker's line.
    pub fn id(&self) -> (r: &String)
        ensures
            r@ == self@.id,
    {
        &self.id
    }

    /// Whether the worker has stopped; it then takes no more ticks.
    pub fn stopped(&self) -> (r: bool)
        ensures
            r == self@.stopped,
    {
        self.stopped
    }

    /// The interval to sleep between two ticks, in milliseconds.
    pub fn speed(&self) -> (r: u32)
        ensures
            r == self@.spinner.speed,
    {
        self.spinner.speed()
    }

    /// One tick: takes what was polled from the queue, if anything, and
    /// returns the intent to send to the coordinator.
    pub fn tick(&mut self, polled: Option<SpinnerIntent>) -> (r: OutputIntent)
        requires
            !old(self)@.stopped,
        ensures
            final(self)@ == tick_next(old(self)@, polled_view(polled)),
            r@ == tick_emits(old(self)@, polled_view(polled)),
    {
        match polled {
            Some(SpinnerIntent::Exit) => {
                self.stopped = true;
                OutputIntent::Unpin(self.id.clone())
            },
            Some(SpinnerIntent::Write(d)) => {
                self.data = d;
                let message = self.spinner.next_message(self.data.as_str());
                OutputIntent::Pin(self.id.clone(), message)
            },
            None => {
                let message = self.spinner.next_message(self.data.as_str());
                OutputIntent::Pin(self.id.clone(), message)
            },
        }
    }
}

/// A worker stops on the tick that takes `Exit` from its queue and sends
/// its final unpin on that same tick.
pub proof fn lemma_exit_stops(w: WorkerView)
    requires
        !w.stopped,
    ensures
        run_ticks(w, seq![Some(SpinnerIntentView::Exit)]) == (
            WorkerView { stopped: true, ..w },
            seq![IntentView::Unpin(w.id)],
        ),
{
    let polls = seq![Some(SpinnerIntentView::Exit)];
    let w1 = tick_next(w, polls[0]);
    assert(run_ticks(w1, polls.skip(1)) == (w1, Seq::<IntentView>::empty()));
    assert(seq![tick_emits(w, polls[0])] + Seq::<IntentView>::empty() =~= seq![IntentView::Unpin(w.id)]);
}

/// Once stopped, a worker sends nothing more, whatever its queue holds.
pub proof fn lemma_stopped_silent(w: WorkerView, polls: Seq<Option<SpinnerIntentView>>)
    requires
        w.stopped,
    ensures
        run_ticks(w, polls) == (w, Seq::<IntentView>::empty()),
{
}

} // verus!
