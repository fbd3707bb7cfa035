//! The facade that applications hold. It decides, for each call, which
//! intents go to the coordinator and to the spinner workers, which workers
//! start, and in what order everything is torn down. Whoever runs it owns
//! the queues and the workers and carries out the returned dispatches in
//! order.
use vstd::prelude::*;
use crate::output_intent::{IntentView, OutputIntent};
use crate::spinner::{Spinner, SpinnerView};
use crate::spinner_intent::{SpinnerIntent, SpinnerIntentView};
use crate::spinner::{current_frame, render};
use crate::worker::{run_ticks, SpinnerWorker, WorkerView};

verus! {

/// One step for whoever runs the facade to carry out.
#[derive(Debug)]
pub enum Dispatch {
    /// Send this intent to the coordinator.
    Output(OutputIntent),
    /// Give the worker's id a fresh queue and start the worker on it. The
    /// worker polls its queue only after the dispatches of the same call
    /// were carried out.
    Start(SpinnerWorker),
    /// Send this intent to the worker of the id.
    Spinner(String, SpinnerIntent),
    /// Wait until the worker that was last told to stop for the id has
    /// stopped, and with it sent its final unpin.
    AwaitWorker(String),
    /// Wait until every started worker has stopped.
    AwaitSpinners,
    /// Wait until the coordinator has stopped.
    AwaitOutput,
}

/// A [`Dispatch`] seen as plain values.
pub enum DispatchView {
    Output(IntentView),
    Start(WorkerView),
    Spinner(Seq<char>, SpinnerIntentView),
    AwaitWorker(Seq<char>),
    AwaitSpinners,
    AwaitOutput,
}

impl View for Dispatch {
    type V = DispatchView;

    open spec fn view(&self) -> DispatchView {
        match self {
            Dispatch::Output(i) => DispatchView::Output(i@),
            Dispatch::Start(w) => DispatchView::Start(w@),
            Dispatch::Spinner(id, i) => DispatchView::Spinner(id@, i@),
            Dispatch::AwaitWorker(id) => DispatchView::AwaitWorker(id@),
            Dispatch::AwaitSpinners => DispatchView::AwaitSpinners,
            Dispatch::AwaitOutput => DispatchView::AwaitOutput,
        }
    }
}

pub open spec fn dispatch_views(v: Seq<Dispatch>) -> Seq<DispatchView> {
    v.map_values(|d: Dispatch| d@)
}

/// A [`Typout`] seen as plain values: the ids with a running worker, in the
/// order they started; the ids whose worker was told to stop and has not
/// been awaited since; and the spinner that new workers copy.
pub struct TypoutView {
    pub spinners: Seq<Seq<char>>,
    pub retiring: Seq<Seq<char>>,
    pub spinner: SpinnerView,
}

/// Each id has at most one worker.
pub open spec fn distinct(ids: Seq<Seq<char>>) -> bool {
    forall|i: int, j: int|
        0 <= i < ids.len() && 0 <= j < ids.len() && i != j ==> #[trigger] ids[i] != #[trigger] ids[j]
}

/// Each list holds an id once, and no id is both running and retiring.
pub open spec fn well_formed(t: TypoutView) -> bool {
    &&& distinct(t.spinners)
    &&& distinct(t.retiring)
    &&& forall|x: Seq<char>| !(#[trigger] t.spinners.contains(x) && t.retiring.contains(x))
}

/// The registry after the worker of `id` was dropped from it.
pub open spec fn without(ids: Seq<Seq<char>>, id: Seq<char>) -> Seq<Seq<char>> {
    ids.remove(ids.index_of(id))
}

/// The facade after `spin(id, data)`.
pub open spec fn spin_next(t: TypoutView, id: Seq<char>) -> TypoutView {
    if t.spinners.contains(id) {
        t
    } else if t.retiring.contains(id) {
        TypoutView { spinners: t.spinners.push(id), retiring: without(t.retiring, id), ..t }
    } else {
        TypoutView { spinners: t.spinners.push(id), ..t }
    }
}

/// The dispatches of `spin(id, data)`: a new worker for an id without one,
/// once the id's previous worker, if it is still retiring, has stopped;
/// then the message for the id's worker.
pub open spec fn spin_dispatches(t: TypoutView, id: Seq<char>, data: Seq<char>) -> Seq<DispatchView> {
    let update = DispatchView::Spinner(id, SpinnerIntentView::Write(data));
    let start = DispatchView::Start(
        WorkerView { spinner: t.spinner, id: id, data: data, stopped: false },
    );
    if t.spinners.contains(id) {
        seq![update]
    } else if t.retiring.contains(id) {
        seq![DispatchView::AwaitWorker(id), start, update]
    } else {
        seq![start, update]
    }
}

/// The facade after `unpin(id)`.
pub open spec fn unpin_next(t: TypoutView, id: Seq<char>) -> TypoutView {
    if t.spinners.contains(id) {
        TypoutView { spinners: without(t.spinners, id), retiring: t.retiring.push(id), ..t }
    } else {
        t
    }
}

/// The dispatches of `unpin(id)`: the worker of the id is told to stop and
/// unpins its line itself; any other id is unpinned at the coordinator.
pub open spec fn unpin_dispatches(t: TypoutView, id: Seq<char>) -> Seq<DispatchView> {
    if t.spinners.contains(id) {
        seq![DispatchView::Spinner(id, SpinnerIntentView::Exit)]
    } else {
        seq![DispatchView::Output(IntentView::Unpin(id))]
    }
}

/// The dispatches of the teardown: every worker is told to stop, all of
/// them are awaited, then the coordinator is told to stop and is awaited.
pub open spec fn shutdown_dispatches(ids: Seq<Seq<char>>) -> Seq<DispatchView> {
    ids.map_values(|id: Seq<char>| DispatchView::Spinner(id, SpinnerIntentView::Exit)) + seq![
        DispatchView::AwaitSpinners,
        DispatchView::Output(IntentView::Exit),
        DispatchView::AwaitOutput,
    ]
}

/// Dropping an id from a list of distinct ids removes that id and keeps
/// every other one.
pub proof fn lemma_without(ids: Seq<Seq<char>>, id: Seq<char>)
    requires
        distinct(ids),
        ids.contains(id),
    ensures
        distinct(without(ids, id)),
        forall|x: Seq<char>| #[trigger] without(ids, id).contains(x) <==> (ids.contains(x) && x != id),
{
    let k = ids.index_of(id);
    let rest = without(ids, id);
    assert forall|x: Seq<char>| #[trigger] rest.contains(x) <==> (ids.contains(x) && x != id) by {
        if rest.contains(x) {
            let j = choose|j: int| 0 <= j < rest.len() && rest[j] == x;
            let j2 = if j < k { j } else { j + 1 };
            assert(rest[j] == ids[j2]);
        }
        if ids.contains(x) && x != id {
            let j = choose|j: int| 0 <= j < ids.len() && ids[j] == x;
            assert(j != k);
            let j2 = if j < k { j } else { j - 1 };
            assert(rest[j2] == x);
        }
    }
    assert forall|a: int, b: int|
        0 <= a < rest.len() && 0 <= b < rest.len() && a != b implies #[trigger] rest[a]
        != #[trigger] rest[b] by {
        let a2 = if a < k { a } else { a + 1 };
        let b2 = if b < k { b } else { b + 1 };
        assert(rest[a] == ids[a2]);
        assert(rest[b] == ids[b2]);
    }
}

/// Appending a new id to a list of distinct ids keeps them distinct.
pub proof fn lemma_push_new(ids: Seq<Seq<char>>, id: Seq<char>)
    requires
        distinct(ids),
        !ids.contains(id),
    ensures
        distinct(ids.push(id)),
        forall|x: Seq<char>| #[trigger] ids.push(id).contains(x) <==> (ids.contains(x) || x == id),
{
    let p = ids.push(id);
    assert forall|x: Seq<char>| #[trigger] p.contains(x) <==> (ids.contains(x) || x == id) by {
        if p.contains(x) {
            let j = choose|j: int| 0 <= j < p.len() && p[j] == x;
            if j < ids.len() {
                assert(ids[j] == x);
            }
        }
        if ids.contains(x) {
            let j = choose|j: int| 0 <= j < ids.len() && ids[j] == x;
            assert(p[j] == x);
        }
        if x == id {
            assert(p[ids.len() as int] == x);
        }
    }
    assert forall|a: int, b: int|
        0 <= a < p.len() && 0 <= b < p.len() && a != b implies #[trigger] p[a] != #[trigger] p[b] by {
        if a < ids.len() && b < ids.len() {
            assert(ids[a] != ids[b]);
        } else if a < ids.len() {
            assert(ids.contains(ids[a]));
        } else {
            assert(ids.contains(ids[b]));
        }
    }
}

/// In a list of distinct ids, removing the position that holds `id` is
/// dropping `id`.
proof fn lemma_remove_at(ids: Seq<Seq<char>>, id: Seq<char>, i: int)
    requires
        distinct(ids),
        0 <= i < ids.len(),
        ids[i] == id,
    ensures
        ids.contains(id),
        ids.remove(i) == without(ids, id),
{
    assert(ids.contains(id));
    let k = ids.index_of(id);
    assert(ids[k] == id);
}

/// Spinning the same id twice in a row starts one worker at most: the second
/// call only updates the message of the worker that the id has by then.
pub proof fn lemma_spin_twice(t: TypoutView, id: Seq<char>, x: Seq<char>, y: Seq<char>)
    ensures
        spin_next(t, id).spinners.contains(id),
        spin_dispatches(spin_next(t, id), id, y) == seq![
            DispatchView::Spinner(id, SpinnerIntentView::Write(y)),
        ],
        !t.spinners.contains(id) ==> spin_dispatches(t, id, x).contains(
            DispatchView::Start(WorkerView { spinner: t.spinner, id: id, data: x, stopped: false }),
        ),
{
    if !t.spinners.contains(id) {
        assert(t.spinners.push(id)[t.spinners.len() as int] == id);
        let d = spin_dispatches(t, id, x);
        assert(d[d.len() - 2] == DispatchView::Start(
            WorkerView { spinner: t.spinner, id: id, data: x, stopped: false },
        ));
    }
}

/// Unpinning an animated id tells its worker to stop and drops it from the
/// running workers, so spinning the id again starts a fresh worker; the
/// fresh worker starts only after the stopped one was awaited, so the old
/// worker's final unpin reaches the coordinator before any pin of the new.
pub proof fn lemma_spin_after_unpin(t: TypoutView, id: Seq<char>, y: Seq<char>)
    requires
        well_formed(t),
        t.spinners.contains(id),
    ensures
        unpin_dispatches(t, id) == seq![DispatchView::Spinner(id, SpinnerIntentView::Exit)],
        !unpin_next(t, id).spinners.contains(id),
        well_formed(unpin_next(t, id)),
        spin_dispatches(unpin_next(t, id), id, y) == seq![
            DispatchView::AwaitWorker(id),
            DispatchView::Start(WorkerView { spinner: t.spinner, id: id, data: y, stopped: false }),
            DispatchView::Spinner(id, SpinnerIntentView::Write(y)),
        ],
{
    lemma_without(t.spinners, id);
    lemma_push_new(t.retiring, id);
    let u = unpin_next(t, id);
    assert(u.retiring.contains(id));
    assert forall|x: Seq<char>| !(#[trigger] u.spinners.contains(x) && u.retiring.contains(x)) by {
        if u.spinners.contains(x) && u.retiring.contains(x) {
            assert(t.spinners.contains(x));
            assert(t.retiring.contains(x) || x == id);
        }
    }
}

/// An animated line that is unpinned right after it was spun (before its
/// worker's second poll) shows up at the coordinator as exactly one pin
/// followed by one unpin, and its worker stops.
pub proof fn lemma_spin_then_unpin(t: TypoutView, id: Seq<char>, x: Seq<char>)
    requires
        !t.spinners.contains(id),
        !t.retiring.contains(id),
    ensures
        ({
            let w = WorkerView { spinner: t.spinner, id: id, data: x, stopped: false };
            let t1 = spin_next(t, id);
            &&& spin_dispatches(t, id, x) == seq![
                DispatchView::Start(w),
                DispatchView::Spinner(id, SpinnerIntentView::Write(x)),
            ]
            &&& unpin_dispatches(t1, id) == seq![DispatchView::Spinner(id, SpinnerIntentView::Exit)]
            &&& run_ticks(
                w,
                seq![Some(SpinnerIntentView::Write(x)), Some(SpinnerIntentView::Exit)],
            ).1 == seq![
                IntentView::Pin(id, render(t.spinner.tpl, current_frame(t.spinner.frames), x)),
                IntentView::Unpin(id),
            ]
            &&& run_ticks(
                w,
                seq![Some(SpinnerIntentView::Write(x)), Some(SpinnerIntentView::Exit)],
            ).0.stopped
        }),
{
    let w = WorkerView { spinner: t.spinner, id: id, data: x, stopped: false };
    assert(t.spinners.push(id)[t.spinners.len() as int] == id);
    let polls = seq![Some(SpinnerIntentView::Write(x)), Some(SpinnerIntentView::Exit)];
    let w1 = crate::worker::tick_next(w, polls[0]);
    let polls1 = polls.skip(1);
    assert(polls1 =~= seq![Some(SpinnerIntentView::Exit)]);
    let w2 = crate::worker::tick_next(w1, polls1[0]);
    assert(polls1.skip(1) =~= Seq::<Option<SpinnerIntentView>>::empty());
    assert(run_ticks(w2, polls1.skip(1)) == (w2, Seq::<IntentView>::empty()));
    assert(run_ticks(w1, polls1).1 =~= seq![IntentView::Unpin(id)]);
    assert(run_ticks(w, polls).1 =~= seq![
        IntentView::Pin(id, render(t.spinner.tpl, current_frame(t.spinner.frames), x)),
        IntentView::Unpin(id),
    ]);
}

/// The teardown tells every registered worker to stop, one stop per worker,
/// before it waits for them; only then does the coordinator get `Exit`, and
/// the coordinator is awaited last.
pub proof fn lemma_shutdown_order(ids: Seq<Seq<char>>)
    ensures
        shutdown_dispatches(ids).len() == ids.len() + 3,
        forall|k: int|
            0 <= k < ids.len() ==> #[trigger] shutdown_dispatches(ids)[k] == DispatchView::Spinner(
                ids[k],
                SpinnerIntentView::Exit,
            ),
        shutdown_dispatches(ids)[ids.len() as int] == DispatchView::AwaitSpinners,
        shutdown_dispatches(ids)[ids.len() as int + 1] == DispatchView::Output(IntentView::Exit),
        shutdown_dispatches(ids)[ids.len() as int + 2] == DispatchView::AwaitOutput,
{
}

/// The views of a list of ids.
pub open spec fn id_views(v: Seq<String>) -> Seq<Seq<char>> {
    v.map_values(|s: String| s@)
}

/// The position of `id` in `ids`, if it is there.
fn position_of(ids: &Vec<String>, id: &str) -> (r: Option<usize>)
    ensures
        match r {
            Some(i) => i < ids@.len() && id_views(ids@)[i as int] == id@,
            None => !id_views(ids@).contains(id@),
        },
{
    let key = String::from_str(id);
    let mut i: usize = 0;
    while i < ids.len()
        invariant
            i <= ids.len(),
            key@ == id@,
            forall|k: int| 0 <= k < i ==> #[trigger] id_views(ids@)[k] != id@,
        decreases ids.len() - i,
    {
        if ids[i] == key {
            return Some(i);
        }
        i = i + 1;
    }
    None
}

/// The facade: the ids with a running worker, the ids whose worker is
/// stopping, and the spinner that new workers start from.
#[derive(Debug)]
pub struct Typout {
    spinners: Vec<String>,
    retiring: Vec<String>,
    spinner: Spinner,
}

impl View for Typout {
    type V = TypoutView;

    closed spec fn view(&self) -> TypoutView {
        TypoutView {
            spinners: id_views(self.spinners@),
            retiring: id_views(self.retiring@),
            spinner: self.spinner@,
        }
    }
}

impl Typout {
    /// A facade with no workers that starts new ones from `spinner`.
    pub fn with_spinner(spinner: Spinner) -> (r: Typout)
        ensures
            r@ == (TypoutView { spinners: Seq::empty(), retiring: Seq::empty(), spinner: spinner@ }),
            well_formed(r@),
    {
        let r = Typout { spinners: Vec::new(), retiring: Vec::new(), spinner };
        assert(r@.spinners =~= Seq::<Seq<char>>::empty());
        assert(r@.retiring =~= Seq::<Seq<char>>::empty());
        r
    }

    /// Sets the spinner that workers started from now on copy.
    pub fn set_spinner(&mut self, spinner: Spinner)
        ensures
            final(self)@ == (TypoutView { spinner: spinner@, ..old(self)@ }),
    {
        self.spinner = spinner;
    }

    /// Appends `data` to the scroll buffer.
    pub fn write(&self, data: &str) -> (r: Vec<Dispatch>)
        ensures
            dispatch_views(r@) == seq![DispatchView::Output(IntentView::Write(data@))],
    {
        let r = vec![Dispatch::Output(OutputIntent::Write(String::from_str(data)))];
        assert(dispatch_views(r@) =~= seq![DispatchView::Output(IntentView::Write(data@))]);
        r
    }

    /// Discards the scroll buffer unprinted.
    pub fn drain(&self) -> (r: Vec<Dispatch>)
        ensures
            dispatch_views(r@) == seq![DispatchView::Output(IntentView::Drain)],
    {
        let r = vec![Dispatch::Output(OutputIntent::Drain)];
        assert(dispatch_views(r@) =~= seq![DispatchView::Output(IntentView::Drain)]);
        r
    }

    /// Prints the scroll buffer and repaints the pinned lines.
    pub fn flush(&self) -> (r: Vec<Dispatch>)
        ensures
            dispatch_views(r@) == seq![DispatchView::Output(IntentView::Flush)],
    {
        let r = vec![Dispatch::Output(OutputIntent::Flush)];
        assert(dispatch_views(r@) =~= seq![DispatchView::Output(IntentView::Flush)]);
        r
    }

    /// Appends `data` to the scroll buffer and flushes.
    pub fn print(&self, data: &str) -> (r: Vec<Dispatch>)
        ensures
            dispatch_views(r@) == seq![
                DispatchView::Output(IntentView::Write(data@)),
                DispatchView::Output(IntentView::Flush),
            ],
    {
        let mut r = self.write(data);
        let ghost before = r@;
        r.push(Dispatch::Output(OutputIntent::Flush));
        assert(dispatch_views(r@) =~= dispatch_views(before).push(
            DispatchView::Output(IntentView::Flush),
        ));
        assert(dispatch_views(r@) =~= seq![
            DispatchView::Output(IntentView::Write(data@)),
            DispatchView::Output(IntentView::Flush),
        ]);
        r
    }

    /// Creates or replaces the static pinned line of `id`.
    pub fn pin(&self, id: &str, data: &str) -> (r: Vec<Dispatch>)
        ensures
            dispatch_views(r@) == seq![DispatchView::Output(IntentView::Pin(id@, data@))],
    {
        let r = vec![
            Dispatch::Output(OutputIntent::Pin(String::from_str(id), String::from_str(data))),
        ];
        assert(dispatch_views(r@) =~= seq![DispatchView::Output(IntentView::Pin(id@, data@))]);
        r
    }

    /// Creates or updates the animated pinned line of `id`: an id without a
    /// worker gets one, after its previous worker, if still stopping, was
    /// awaited; then its worker is sent the message.
    pub fn spin(&mut self, id: &str, data: &str) -> (r: Vec<Dispatch>)
        requires
            well_formed(old(self)@),
        ensures
            well_formed(final(self)@),
            final(self)@.spinners.contains(id@),
            final(self)@ == spin_next(old(self)@, id@),
            dispatch_views(r@) == spin_dispatches(old(self)@, id@, data@),
    {
        let ghost start = self@;
        let mut r: Vec<Dispatch> = Vec::new();
        if position_of(&self.spinners, id).is_none() {
            match position_of(&self.retiring, id) {
                Some(i) => {
                    proof {
                        lemma_remove_at(start.retiring, id@, i as int);
                        lemma_without(start.retiring, id@);
                    }
                    self.retiring.remove(i);
                    assert(self@.retiring =~= without(start.retiring, id@));
                    r.push(Dispatch::AwaitWorker(String::from_str(id)));
                },
                None => {},
            }
            let worker = SpinnerWorker::new(
                self.spinner.clone(),
                String::from_str(id),
                String::from_str(data),
            );
            r.push(Dispatch::Start(worker));
            self.spinners.push(String::from_str(id));
            proof {
                lemma_push_new(start.spinners, id@);
            }
            assert(self@.spinners =~= start.spinners.push(id@));
            assert(self@ == spin_next(start, id@));
            assert forall|x: Seq<char>|
                !(#[trigger] self@.spinners.contains(x) && self@.retiring.contains(x)) by {
                if self@.spinners.contains(x) && self@.retiring.contains(x) {
                    assert(start.retiring.contains(x));
                    assert(start.spinners.contains(x) || x == id@);
                }
            }
        }
        r.push(
            Dispatch::Spinner(String::from_str(id), SpinnerIntent::Write(String::from_str(data))),
        );
        assert(dispatch_views(r@) =~= spin_dispatches(start, id@, data@));
        r
    }

    /// Removes the pinned line of `id`, static or animated. The worker of an
    /// animated line is told to stop and unpins the line itself.
    pub fn unpin(&mut self, id: &str) -> (r: Vec<Dispatch>)
        requires
            well_formed(old(self)@),
        ensures
            well_formed(final(self)@),
            !final(self)@.spinners.contains(id@),
            final(self)@ == unpin_next(old(self)@, id@),
            dispatch_views(r@) == unpin_dispatches(old(self)@, id@),
    {
        let ghost start = self@;
        let r = match position_of(&self.spinners, id) {
            Some(i) => {
                proof {
                    lemma_remove_at(start.spinners, id@, i as int);
                    lemma_spin_after_unpin(start, id@, Seq::empty());
                }
                let gone = self.spinners.remove(i);
                self.retiring.push(gone);
                assert(self@.spinners =~= without(start.spinners, id@));
                assert(self@.retiring =~= start.retiring.push(id@));
                vec![Dispatch::Spinner(String::from_str(id), SpinnerIntent::Exit)]
            },
            None => vec![Dispatch::Output(OutputIntent::Unpin(String::from_str(id)))],
        };
        assert(dispatch_views(r@) =~= unpin_dispatches(start, id@));
        r
    }

    /// The teardown: every worker still registered is told to stop, all
    /// workers, stopping ones included, are awaited, then the coordinator is
    /// stopped and awaited. Nothing is lost: each queue is drained before
    /// its consumer stops.
    pub fn shutdown(&mut self) -> (r: Vec<Dispatch>)
        ensures
            final(self)@ == (TypoutView {
                spinners: Seq::empty(),
                retiring: Seq::empty(),
                ..old(self)@
            }),
            well_formed(final(self)@),
            dispatch_views(r@) == shutdown_dispatches(old(self)@.spinners),
    {
        let ghost ids = self@.spinners;
        let mut r: Vec<Dispatch> = Vec::new();
        let mut i: usize = 0;
        while i < self.spinners.len()
            invariant
                i <= self.spinners.len(),
                ids == self@.spinners,
                dispatch_views(r@) == ids.take(i as int).map_values(
                    |id: Seq<char>| DispatchView::Spinner(id, SpinnerIntentView::Exit),
                ),
            decreases self.spinners.len() - i,
        {
            let ghost before = r@;
            r.push(Dispatch::Spinner(self.spinners[i].clone(), SpinnerIntent::Exit));
            assert(dispatch_views(r@) =~= dispatch_views(before).push(
                DispatchView::Spinner(ids[i as int], SpinnerIntentView::Exit),
            ));
            assert(ids.take(i as int + 1).map_values(
                |id: Seq<char>| DispatchView::Spinner(id, SpinnerIntentView::Exit),
            ) =~= ids.take(i as int).map_values(
                |id: Seq<char>| DispatchView::Spinner(id, SpinnerIntentView::Exit),
            ).push(DispatchView::Spinner(ids[i as int], SpinnerIntentView::Exit)));
            i = i + 1;
        }
        assert(ids.take(i as int) =~= ids);
        let ghost before = r@;
        r.push(Dispatch::AwaitSpinners);
        r.push(Dispatch::Output(OutputIntent::Exit));
        r.push(Dispatch::AwaitOutput);
        assert(dispatch_views(r@) =~= shutdown_dispatches(ids));
        self.spinners = Vec::new();
        self.retiring = Vec::new();
        assert(self@.spinners =~= Seq::<Seq<char>>::empty());
        assert(self@.retiring =~= Seq::<Seq<char>>::empty());
        r
    }
}

impl Default for Typout {
    fn default() -> (r: Typout)
        ensures
            r@.spinners.len() == 0,
            r@.retiring.len() == 0,
            well_formed(r@),
            r@.spinner.speed == 30,
            r@.spinner.frames == crate::spinner::braille_frames(),
            r@.spinner.tpl == "#{frame} #{message}"@,
    {
        Typout::with_spinner(Spinner::default())
    }
}

} // verus!
