//! The output coordinator: owns the scroll buffer, the table of pinned lines
//! and the cursor baseline, and turns each intent into the terminal commands
//! that repaint the screen.
use vstd::prelude::*;
use crate::output_intent::{IntentView, OutputIntent};
use crate::text::{concat, count_newlines, newlines};

verus! {

/// One pinned line: its id and its text.
pub type PinEntry = (Seq<char>, Seq<char>);

/// A terminal command, executed in order by whoever owns the terminal.
#[derive(Debug)]
pub enum Paint {
    /// Move the cursor up by this many rows.
    MoveUp(u16),
    /// Move the cursor to this column of its row.
    MoveToColumn(u16),
    /// Clear from the cursor to the end of its row.
    ClearUntilNewLine,
    /// Clear from the cursor to the end of the screen.
    ClearFromCursorDown,
    /// Print the text as it is.
    Print(String),
    /// Read the cursor column and hand it to [`Output::set_column`]: the
    /// scroll text printed so far is permanent up to that column.
    RecordColumn,
}

/// A [`Paint`] with its text seen as a character sequence.
pub enum PaintView {
    MoveUp(u16),
    MoveToColumn(u16),
    ClearUntilNewLine,
    ClearFromCursorDown,
    Print(Seq<char>),
    RecordColumn,
}

impl View for Paint {
    type V = PaintView;

    open spec fn view(&self) -> PaintView {
        match self {
            Paint::MoveUp(n) => PaintView::MoveUp(*n),
            Paint::MoveToColumn(c) => PaintView::MoveToColumn(*c),
            Paint::ClearUntilNewLine => PaintView::ClearUntilNewLine,
            Paint::ClearFromCursorDown => PaintView::ClearFromCursorDown,
            Paint::Print(t) => PaintView::Print(t@),
            Paint::RecordColumn => PaintView::RecordColumn,
        }
    }
}

pub open spec fn paint_views(v: Seq<Paint>) -> Seq<PaintView> {
    v.map_values(|p: Paint| p@)
}

/// The coordinator's state: the scroll buffer, the pin table in insertion
/// order, and the cursor baseline (permanent column, pinned row count).
pub struct OutputState {
    pub buffer: Seq<char>,
    pub pins: Seq<PinEntry>,
    pub column: u16,
    pub rows: u16,
}

/// Each id appears at most once in the pin table.
pub open spec fn unique_ids(pins: Seq<PinEntry>) -> bool {
    forall|i: int, j: int|
        0 <= i < pins.len() && 0 <= j < pins.len() && i != j ==> #[trigger] pins[i].0
            != #[trigger] pins[j].0
}

pub open spec fn has_pin(pins: Seq<PinEntry>, id: Seq<char>) -> bool {
    exists|i: int| 0 <= i < pins.len() && #[trigger] pins[i].0 == id
}

pub open spec fn pin_index(pins: Seq<PinEntry>, id: Seq<char>) -> int {
    choose|i: int| 0 <= i < pins.len() && #[trigger] pins[i].0 == id
}

/// The table after pinning `text` under `id`: an existing entry is replaced
/// in place, a new one goes last.
pub open spec fn pinned(pins: Seq<PinEntry>, id: Seq<char>, text: Seq<char>) -> Seq<PinEntry> {
    if has_pin(pins, id) {
        pins.update(pin_index(pins, id), (id, text))
    } else {
        pins.push((id, text))
    }
}

/// The table after removing the entry of `id`, if there is one.
pub open spec fn unpinned(pins: Seq<PinEntry>, id: Seq<char>) -> Seq<PinEntry> {
    if has_pin(pins, id) {
        pins.remove(pin_index(pins, id))
    } else {
        pins
    }
}

/// Terminal rows taken by the pinned texts: their newlines, all together.
pub open spec fn total_rows(pins: Seq<PinEntry>) -> nat
    decreases pins.len(),
{
    if pins.len() == 0 {
        0
    } else {
        total_rows(pins.drop_last()) + newlines(pins.last().1)
    }
}

/// Commands that erase the painted pins: up by the pinned row count, back to
/// the permanent column, clear to the end of the screen.
pub open spec fn clear_paints(column: u16, rows: u16) -> Seq<PaintView> {
    (if rows > 0 {
        seq![PaintView::MoveUp(rows)]
    } else {
        Seq::empty()
    }) + seq![
        PaintView::MoveToColumn(column),
        PaintView::ClearUntilNewLine,
        PaintView::ClearFromCursorDown,
    ]
}

/// Commands that print every pinned text, in table order.
pub open spec fn pin_paints(pins: Seq<PinEntry>) -> Seq<PaintView> {
    pins.map_values(|e: PinEntry| PaintView::Print(e.1))
}

/// The state after a repaint with the pin table `pins`.
pub open spec fn repainted(s: OutputState, pins: Seq<PinEntry>) -> OutputState {
    OutputState { pins: pins, rows: total_rows(pins) as u16, ..s }
}

/// The state after the coordinator handles `i` in state `s`.
pub open spec fn next(s: OutputState, i: IntentView) -> OutputState {
    match i {
        IntentView::Write(t) => OutputState { buffer: s.buffer + t, ..s },
        IntentView::Drain => OutputState { buffer: Seq::empty(), ..s },
        IntentView::Flush => OutputState { buffer: Seq::empty(), ..repainted(s, s.pins) },
        IntentView::Pin(id, t) => repainted(s, pinned(s.pins, id, t)),
        IntentView::Unpin(id) => repainted(s, unpinned(s.pins, id)),
        IntentView::Exit => s,
    }
}

/// The terminal commands issued while handling `i` in state `s`.
pub open spec fn paints(s: OutputState, i: IntentView) -> Seq<PaintView> {
    match i {
        IntentView::Flush => clear_paints(s.column, s.rows) + seq![
            PaintView::Print(s.buffer),
            PaintView::RecordColumn,
        ] + pin_paints(s.pins),
        IntentView::Pin(id, t) => clear_paints(s.column, s.rows) + pin_paints(
            pinned(s.pins, id, t),
        ),
        IntentView::Unpin(id) => clear_paints(s.column, s.rows) + pin_paints(
            unpinned(s.pins, id),
        ),
        _ => Seq::empty(),
    }
}

/// Whether the pinned rows after handling `i` still fit a cursor move.
pub open spec fn fits(s: OutputState, i: IntentView) -> bool {
    match i {
        IntentView::Pin(id, t) => total_rows(pinned(s.pins, id, t)) <= u16::MAX,
        _ => true,
    }
}

/// A well-formed state: ids are unique and the pinned row count is the
/// newline count of the pinned texts.
pub open spec fn well_formed(s: OutputState) -> bool {
    &&& unique_ids(s.pins)
    &&& s.rows == total_rows(s.pins)
}

pub proof fn lemma_total_rows_append(a: Seq<PinEntry>, b: Seq<PinEntry>)
    ensures
        total_rows(a + b) == total_rows(a) + total_rows(b),
    decreases b.len(),
{
    if b.len() == 0 {
        assert(a + b =~= a);
    } else {
        lemma_total_rows_append(a, b.drop_last());
        assert((a + b).drop_last() =~= a + b.drop_last());
    }
}

proof fn lemma_total_rows_split(pins: Seq<PinEntry>, i: int)
    requires
        0 <= i < pins.len(),
    ensures
        total_rows(pins) == total_rows(pins.take(i)) + newlines(pins[i].1) + total_rows(
            pins.skip(i + 1),
        ),
{
    assert(pins =~= pins.take(i) + seq![pins[i]] + pins.skip(i + 1));
    lemma_total_rows_append(pins.take(i) + seq![pins[i]], pins.skip(i + 1));
    lemma_total_rows_append(pins.take(i), seq![pins[i]]);
    assert(seq![pins[i]].drop_last() =~= Seq::<PinEntry>::empty());
    assert(total_rows(seq![pins[i]]) == total_rows(Seq::<PinEntry>::empty()) + newlines(pins[i].1));
}

/// Replacing one entry changes the row count by the difference of newlines.
proof fn lemma_total_rows_update(pins: Seq<PinEntry>, i: int, e: PinEntry)
    requires
        0 <= i < pins.len(),
    ensures
        total_rows(pins.update(i, e)) + newlines(pins[i].1) == total_rows(pins) + newlines(e.1),
{
    lemma_total_rows_split(pins, i);
    lemma_total_rows_split(pins.update(i, e), i);
    assert(pins.update(i, e).take(i) =~= pins.take(i));
    assert(pins.update(i, e).skip(i + 1) =~= pins.skip(i + 1));
}

/// Removing one entry takes its newlines off the row count.
proof fn lemma_total_rows_remove(pins: Seq<PinEntry>, i: int)
    requires
        0 <= i < pins.len(),
    ensures
        total_rows(pins.remove(i)) + newlines(pins[i].1) == total_rows(pins),
{
    lemma_total_rows_split(pins, i);
    assert(pins.remove(i) =~= pins.take(i) + pins.skip(i + 1));
    lemma_total_rows_append(pins.take(i), pins.skip(i + 1));
}

proof fn lemma_total_rows_push(pins: Seq<PinEntry>, e: PinEntry)
    ensures
        total_rows(pins.push(e)) == total_rows(pins) + newlines(e.1),
{
    assert(pins.push(e).drop_last() =~= pins);
}

/// In a table with unique ids, the entry found for `id` is the one at `i`.
proof fn lemma_pin_index(pins: Seq<PinEntry>, id: Seq<char>, i: int)
    requires
        unique_ids(pins),
        0 <= i < pins.len(),
        pins[i].0 == id,
    ensures
        has_pin(pins, id),
        pin_index(pins, id) == i,
{
    assert(has_pin(pins, id));
    let j = pin_index(pins, id);
    assert(pins[j].0 == id);
}

/// Pinning and unpinning keep ids unique.
pub proof fn lemma_unique_after(s: OutputState, i: IntentView)
    requires
        unique_ids(s.pins),
    ensures
        unique_ids(next(s, i).pins),
{
    match i {
        IntentView::Pin(id, t) => {
            let p = pinned(s.pins, id, t);
            if has_pin(s.pins, id) {
                let k = pin_index(s.pins, id);
                assert forall|a: int, b: int|
                    0 <= a < p.len() && 0 <= b < p.len() && a != b implies #[trigger] p[a].0
                    != #[trigger] p[b].0 by {
                    if a != k && b != k {
                        assert(s.pins[a].0 != s.pins[b].0);
                    } else if a == k {
                        assert(s.pins[k].0 != s.pins[b].0);
                    } else {
                        assert(s.pins[a].0 != s.pins[k].0);
                    }
                }
            } else {
                assert forall|a: int, b: int|
                    0 <= a < p.len() && 0 <= b < p.len() && a != b implies #[trigger] p[a].0
                    != #[trigger] p[b].0 by {
                    if a < s.pins.len() && b < s.pins.len() {
                        assert(s.pins[a].0 != s.pins[b].0);
                    } else if a < s.pins.len() {
                        assert(s.pins[a].0 == p[a].0);
                    } else {
                        assert(s.pins[b].0 == p[b].0);
                    }
                }
            }
        },
        IntentView::Unpin(id) => {
            let p = unpinned(s.pins, id);
            if has_pin(s.pins, id) {
                let k = pin_index(s.pins, id);
                assert forall|a: int, b: int|
                    0 <= a < p.len() && 0 <= b < p.len() && a != b implies #[trigger] p[a].0
                    != #[trigger] p[b].0 by {
                    let a2 = if a < k { a } else { a + 1 };
                    let b2 = if b < k { b } else { b + 1 };
                    assert(p[a] == s.pins[a2]);
                    assert(p[b] == s.pins[b2]);
                    assert(s.pins[a2].0 != s.pins[b2].0);
                }
            }
        },
        _ => {},
    }
}

/// Unpinning never adds rows.
pub proof fn lemma_unpin_rows(pins: Seq<PinEntry>, id: Seq<char>)
    ensures
        total_rows(unpinned(pins, id)) <= total_rows(pins),
{
    if has_pin(pins, id) {
        lemma_total_rows_remove(pins, pin_index(pins, id));
    }
}

/// The state after handling each intent of `is`, in order.
pub open spec fn run(s: OutputState, is: Seq<IntentView>) -> OutputState
    decreases is.len(),
{
    if is.len() == 0 {
        s
    } else {
        next(run(s, is.drop_last()), is.last())
    }
}

/// One `Write` intent per fragment, in order.
pub open spec fn writes(ws: Seq<Seq<char>>) -> Seq<IntentView> {
    ws.map_values(|w: Seq<char>| IntentView::Write(w))
}

proof fn lemma_run_writes(s: OutputState, ws: Seq<Seq<char>>)
    ensures
        run(s, writes(ws)) == (OutputState { buffer: s.buffer + concat(ws), ..s }),
    decreases ws.len(),
{
    if ws.len() == 0 {
        assert(s.buffer + concat(ws) =~= s.buffer);
    } else {
        assert(writes(ws).drop_last() =~= writes(ws.drop_last()));
        lemma_run_writes(s, ws.drop_last());
        assert(s.buffer + concat(ws.drop_last()) + ws.last() =~= s.buffer + concat(ws));
    }
}

/// Writes followed by one flush print the written fragments joined in call
/// order, and nothing else of the scroll text; the buffer is empty afterwards.
pub proof fn lemma_writes_then_flush(s: OutputState, ws: Seq<Seq<char>>)
    requires
        s.buffer.len() == 0,
    ensures
        paints(run(s, writes(ws)), IntentView::Flush) == clear_paints(s.column, s.rows) + seq![
            PaintView::Print(concat(ws)),
            PaintView::RecordColumn,
        ] + pin_paints(s.pins),
        next(run(s, writes(ws)), IntentView::Flush).buffer.len() == 0,
{
    lemma_run_writes(s, ws);
    assert(s.buffer + concat(ws) =~= concat(ws));
}

/// A drain followed by a flush prints no scroll text: the one scroll print
/// of the flush is empty.
pub proof fn lemma_drain_then_flush(s: OutputState)
    ensures
        paints(next(s, IntentView::Drain), IntentView::Flush) == clear_paints(s.column, s.rows)
            + seq![PaintView::Print(Seq::empty()), PaintView::RecordColumn] + pin_paints(s.pins),
{
}

/// Pinning `text` under `id` leaves exactly one entry for `id`, holding
/// `text`; every entry of another id is kept and none is added; the scroll
/// buffer is untouched.
pub proof fn lemma_pin_replaces(s: OutputState, id: Seq<char>, text: Seq<char>)
    requires
        unique_ids(s.pins),
    ensures
        ({
            let p = next(s, IntentView::Pin(id, text)).pins;
            &&& unique_ids(p)
            &&& exists|k: int| 0 <= k < p.len() && #[trigger] p[k] == (id, text)
            &&& forall|e: PinEntry| e.0 != id ==> (#[trigger] s.pins.contains(e) <==> p.contains(e))
            &&& next(s, IntentView::Pin(id, text)).buffer == s.buffer
        }),
{
    lemma_unique_after(s, IntentView::Pin(id, text));
    let p = pinned(s.pins, id, text);
    let k: int = if has_pin(s.pins, id) { pin_index(s.pins, id) } else { s.pins.len() as int };
    assert(p[k] == (id, text));
    assert forall|e: PinEntry| e.0 != id implies (#[trigger] s.pins.contains(e) <==> p.contains(e)) by {
        if s.pins.contains(e) {
            let j = choose|j: int| 0 <= j < s.pins.len() && s.pins[j] == e;
            assert(j != k);
            assert(p[j] == e);
        }
        if p.contains(e) {
            let j = choose|j: int| 0 <= j < p.len() && p[j] == e;
            assert(j != k);
            assert(s.pins[j] == e);
        }
    }
}

/// Pinning `a` and then `b` under one id leaves exactly one entry for that
/// id, holding `b`; ids stay unique.
pub proof fn lemma_pin_twice(s: OutputState, id: Seq<char>, a: Seq<char>, b: Seq<char>)
    requires
        unique_ids(s.pins),
    ensures
        ({
            let p = next(next(s, IntentView::Pin(id, a)), IntentView::Pin(id, b)).pins;
            &&& unique_ids(p)
            &&& exists|k: int| 0 <= k < p.len() && #[trigger] p[k] == (id, b)
            &&& p.len() == pinned(s.pins, id, a).len()
        }),
{
    let s1 = next(s, IntentView::Pin(id, a));
    lemma_unique_after(s, IntentView::Pin(id, a));
    lemma_unique_after(s1, IntentView::Pin(id, b));
    let first = s1.pins;
    let k: int = if has_pin(s.pins, id) { pin_index(s.pins, id) } else { s.pins.len() as int };
    assert(first[k].0 == id);
    lemma_pin_index(first, id, k);
    let p = pinned(first, id, b);
    assert(p[k] == (id, b));
}

/// Unpinning an id that is not pinned changes nothing.
pub proof fn lemma_unpin_absent(s: OutputState, id: Seq<char>)
    requires
        well_formed(s),
        !has_pin(s.pins, id),
    ensures
        next(s, IntentView::Unpin(id)) == s,
{
}

/// The output coordinator. It never writes to the terminal itself: each
/// intent it handles yields the commands that bring the screen up to date.
pub struct Output {
    buffer: String,
    pins: Vec<(String, String)>,
    column: u16,
    rows: u16,
}

impl View for Output {
    type V = OutputState;

    closed spec fn view(&self) -> OutputState {
        OutputState {
            buffer: self.buffer@,
            pins: self.pins@.map_values(|e: (String, String)| (e.0@, e.1@)),
            column: self.column,
            rows: self.rows,
        }
    }
}

impl Output {
    /// A coordinator with an empty buffer, no pins, and its baseline at the
    /// origin.
    pub fn new() -> (r: Output)
        ensures
            r@.buffer.len() == 0,
            r@.pins.len() == 0,
            r@.column == 0,
            r@.rows == 0,
            well_formed(r@),
    {
        let r = Output { buffer: String::new(), pins: Vec::new(), column: 0, rows: 0 };
        assert(r@.pins =~= Seq::<PinEntry>::empty());
        r
    }

    /// Handles one intent and returns the terminal commands that it needs,
    /// to be executed in order. `Exit` is handled by whoever runs the
    /// coordinator and changes nothing here.
    pub fn handle(&mut self, intent: OutputIntent) -> (r: Vec<Paint>)
        requires
            well_formed(old(self)@),
            fits(old(self)@, intent@),
        ensures
            well_formed(final(self)@),
            final(self)@ == next(old(self)@, intent@),
            paint_views(r@) == paints(old(self)@, intent@),
    {
        proof {
            lemma_unique_after(self@, intent@);
        }
        match intent {
            OutputIntent::Write(data) => {
                self.buffer.append(data.as_str());
                Vec::new()
            },
            OutputIntent::Drain => {
                self.buffer = String::new();
                Vec::new()
            },
            OutputIntent::Pin(id, data) => {
                self.pin(id, data);
                self.repaint()
            },
            OutputIntent::Unpin(id) => {
                proof {
                    lemma_unpin_rows(self@.pins, id@);
                }
                self.unpin(id);
                self.repaint()
            },
            OutputIntent::Flush => self.flush(),
            OutputIntent::Exit => Vec::new(),
        }
    }

    /// Whether [`Output::handle`] can take `intent`: the pinned texts after it
    /// must not span more rows than a cursor move can cover.
    pub fn fits(&self, intent: &OutputIntent) -> (r: bool)
        requires
            well_formed(self@),
        ensures
            r == fits(self@, intent@),
    {
        match intent {
            OutputIntent::Pin(id, data) => {
                let added = count_newlines(data.as_str());
                let ghost pins = self@.pins;
                let kept: u16 = match self.find(id) {
                    Some(i) => {
                        let removed = count_newlines(self.pins[i].1.as_str());
                        proof {
                            lemma_pin_index(pins, id@, i as int);
                            lemma_total_rows_update(pins, i as int, (id@, data@));
                            lemma_total_rows_split(pins, i as int);
                        }
                        self.rows - removed as u16
                    },
                    None => {
                        proof {
                            lemma_total_rows_push(pins, (id@, data@));
                        }
                        self.rows
                    },
                };
                added <= (u16::MAX - kept) as usize
            },
            _ => true,
        }
    }

    /// The number of terminal rows that the painted pins take.
    pub fn pinned_rows(&self) -> (r: u16)
        ensures
            r == self@.rows,
    {
        self.rows
    }

    /// Takes the cursor column that the terminal reported after printing the
    /// scroll text (see [`Paint::RecordColumn`]).
    pub fn set_column(&mut self, column: u16)
        ensures
            final(self)@ == (OutputState { column: column, ..old(self)@ }),
    {
        self.column = column;
    }

    /// The index of the entry of `id`, if there is one.
    fn find(&self, id: &String) -> (r: Option<usize>)
        ensures
            match r {
                Some(i) => i < self@.pins.len() && self@.pins[i as int].0 == id@,
                None => !has_pin(self@.pins, id@),
            },
    {
        let mut i: usize = 0;
        while i < self.pins.len()
            invariant
                i <= self.pins.len(),
                forall|k: int| 0 <= k < i ==> #[trigger] self@.pins[k].0 != id@,
            decreases self.pins.len() - i,
        {
            if self.pins[i].0 == *id {
                return Some(i);
            }
            i = i + 1;
        }
        None
    }

    fn pin(&mut self, id: String, data: String)
        requires
            unique_ids(old(self)@.pins),
        ensures
            final(self)@ == (OutputState {
                pins: pinned(old(self)@.pins, id@, data@),
                ..old(self)@
            }),
    {
        let ghost pins = self@.pins;
        match self.find(&id) {
            Some(i) => {
                proof {
                    lemma_pin_index(pins, id@, i as int);
                }
                self.pins.set(i, (id, data));
                assert(self@.pins =~= pinned(pins, id@, data@));
            },
            None => {
                self.pins.push((id, data));
                assert(self@.pins =~= pinned(pins, id@, data@));
            },
        }
    }

    fn unpin(&mut self, id: String)
        requires
            unique_ids(old(self)@.pins),
        ensures
            final(self)@ == (OutputState { pins: unpinned(old(self)@.pins, id@), ..old(self)@ }),
    {
        let ghost pins = self@.pins;
        match self.find(&id) {
            Some(i) => {
                proof {
                    lemma_pin_index(pins, id@, i as int);
                }
                self.pins.remove(i);
                assert(self@.pins =~= unpinned(pins, id@));
            },
            None => {},
        }
    }

    /// Erases the painted pins and prints the pin table again.
    fn repaint(&mut self) -> (r: Vec<Paint>)
        requires
            total_rows(old(self)@.pins) <= u16::MAX,
        ensures
            final(self)@ == repainted(old(self)@, old(self)@.pins),
            paint_views(r@) == clear_paints(old(self)@.column, old(self)@.rows) + pin_paints(
                old(self)@.pins,
            ),
    {
        let mut cmds = self.clear_pins();
        self.paint_pins(&mut cmds);
        cmds
    }

    fn flush(&mut self) -> (r: Vec<Paint>)
        requires
            well_formed(old(self)@),
        ensures
            final(self)@ == next(old(self)@, IntentView::Flush),
            paint_views(r@) == paints(old(self)@, IntentView::Flush),
    {
        let ghost start = self@;
        let mut cmds = self.clear_pins();
        cmds.push(Paint::Print(self.buffer.clone()));
        self.buffer = String::new();
        cmds.push(Paint::RecordColumn);
        self.paint_pins(&mut cmds);
        assert(paint_views(cmds@) =~= paints(start, IntentView::Flush));
        cmds
    }

    fn clear_pins(&mut self) -> (r: Vec<Paint>)
        ensures
            final(self)@ == (OutputState { rows: 0, ..old(self)@ }),
            paint_views(r@) == clear_paints(old(self)@.column, old(self)@.rows),
    {
        let mut cmds: Vec<Paint> = Vec::new();
        if self.rows > 0 {
            cmds.push(Paint::MoveUp(self.rows));
        }
        cmds.push(Paint::MoveToColumn(self.column));
        self.rows = 0;
        cmds.push(Paint::ClearUntilNewLine);
        cmds.push(Paint::ClearFromCursorDown);
        assert(paint_views(cmds@) =~= clear_paints(old(self)@.column, old(self)@.rows));
        cmds
    }

    fn paint_pins(&mut self, cmds: &mut Vec<Paint>)
        requires
            old(self)@.rows + total_rows(old(self)@.pins) <= u16::MAX,
        ensures
            final(self)@ == (OutputState {
                rows: (old(self)@.rows + total_rows(old(self)@.pins)) as u16,
                ..old(self)@
            }),
            paint_views(final(cmds)@) == paint_views(old(cmds)@) + pin_paints(old(self)@.pins),
    {
        let ghost pins = self@.pins;
        let ghost start = paint_views(cmds@);
        let mut i: usize = 0;
        while i < self.pins.len()
            invariant
                pins == self@.pins,
                i <= pins.len(),
                old(self)@.rows + total_rows(pins) <= u16::MAX,
                self.rows == old(self)@.rows + total_rows(pins.take(i as int)),
                self@.buffer == old(self)@.buffer,
                self@.column == old(self)@.column,
                paint_views(cmds@) == start + pin_paints(pins.take(i as int)),
            decreases self.pins.len() - i,
        {
            assert(pins.take(i as int + 1).drop_last() =~= pins.take(i as int));
            proof {
                lemma_total_rows_append(pins.take(i as int + 1), pins.skip(i as int + 1));
                assert(pins =~= pins.take(i as int + 1) + pins.skip(i as int + 1));
            }
            let n = count_newlines(self.pins[i].1.as_str());
            self.rows = self.rows + n as u16;
            let ghost before = cmds@;
            cmds.push(Paint::Print(self.pins[i].1.clone()));
            assert(paint_views(cmds@) =~= paint_views(before).push(PaintView::Print(pins[i as int].1)));
            assert(pin_paints(pins.take(i as int + 1)) =~= pin_paints(pins.take(i as int)).push(
                PaintView::Print(pins[i as int].1),
            ));
            i = i + 1;
        }
        assert(pins.take(i as int) =~= pins);
    }
}

impl Default for Output {
    fn default() -> (r: Output)
        ensures
            r@.buffer.len() == 0,
            r@.pins.len() == 0,
            r@.column == 0,
            r@.rows == 0,
            well_formed(r@),
    {
        Output::new()
    }
}

} // verus!
