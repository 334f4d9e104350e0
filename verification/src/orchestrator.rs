//! The tail orchestrator: the state machine that drains one line source
//! into the sink, applies no reordering, and fires the one-shot
//! completion signal exactly once — when the initially available content
//! has been exhausted or when the run fails, whichever comes first. The
//! driving loop feeds it one event per `next_line` resolution and carries
//! out the returned actions.

use vstd::prelude::*;

use crate::error::RunError;
use crate::sink::SinkBuffer;
use crate::sink::store_text;

verus! {

/// A fault a source can report mid-stream: an I/O fault while reading, or
/// a spawned command that exited with the given non-zero status.
#[derive(Clone, Copy, Debug, PartialEq, Eq, Structural)]
pub enum SourceFault {
    Read,
    ChildExit(i32),
}

/// One resolution of a source's `next_line`: a line, the end of the
/// currently available data, or a fault.
pub enum ReadEvent {
    Line(String),
    NoMoreData,
    Fault(SourceFault),
}

/// The model of a read event, over mathematical strings.
pub enum EventModel {
    Line(Seq<char>),
    NoMoreData,
    Fault(SourceFault),
}

impl View for ReadEvent {
    type V = EventModel;

    open spec fn view(&self) -> EventModel {
        match self {
            ReadEvent::Line(l) => EventModel::Line(l@),
            ReadEvent::NoMoreData => EventModel::NoMoreData,
            ReadEvent::Fault(f) => EventModel::Fault(*f),
        }
    }
}

/// The orchestrator's lifecycle. `Draining` works through the initial
/// backlog; `Following` holds after the backlog is drained when the
/// source keeps producing; `Drained` and `Failed` are terminal.
#[derive(Clone, Copy, Debug, PartialEq, Eq, Structural)]
pub enum Phase {
    Draining,
    Following,
    Drained,
    Failed,
}

pub open spec fn phase_is_terminal(p: Phase) -> bool {
    p == Phase::Drained || p == Phase::Failed
}

/// The record written for one line: the decorated line plus its
/// terminator.
pub open spec fn record_of(line: Seq<char>) -> Seq<char> {
    line + "\n"@
}

/// The model of the orchestrator: its follow mode, whether the
/// completion signal has been fired, its phase, and every record written
/// so far in arrival order.
pub struct OrchModel {
    pub follow: bool,
    pub fired: bool,
    pub phase: Phase,
    pub records: Seq<Seq<char>>,
}

/// The actions one step asks the driving loop to carry out: mirror the
/// newly appended record into the backing file, fire the completion
/// signal now, stop the loop, and/or report the run's failure.
pub struct StepActions {
    pub wrote: Option<String>,
    pub fire_signal: bool,
    pub stop: bool,
    pub failure: Option<RunError>,
}

/// The model of one step's actions.
pub struct ActionsModel {
    pub wrote: Option<Seq<char>>,
    pub fire_signal: bool,
    pub stop: bool,
    pub failure: Option<RunError>,
}

impl View for StepActions {
    type V = ActionsModel;

    open spec fn view(&self) -> ActionsModel {
        ActionsModel {
            wrote: self.wrote.deep_view(),
            fire_signal: self.fire_signal,
            stop: self.stop,
            failure: self.failure,
        }
    }
}

/// The error a fault surfaces as.
pub open spec fn fault_error(f: SourceFault) -> RunError {
    match f {
        SourceFault::Read => RunError::StreamFault,
        SourceFault::ChildExit(code) => RunError::ChildExitFault(code),
    }
}

/// A fresh orchestrator: draining, nothing written, signal not fired.
pub open spec fn init_model(follow: bool) -> OrchModel {
    OrchModel { follow, fired: false, phase: Phase::Draining, records: Seq::empty() }
}

/// One transition of the state machine. A line is appended to the store
/// and never fires the signal. The first end of data fires the signal and
/// either ends the run (not following) or moves to `Following`; a later
/// end of data while following does not fire again. A fault fires the
/// signal if it is still pending, so a blocked consumer is never left
/// hanging, and ends the run with the fault's error.
pub open spec fn step_model(m: OrchModel, ev: EventModel) -> (OrchModel, ActionsModel) {
    match ev {
        EventModel::Line(l) => (
            OrchModel { records: m.records.push(record_of(l)), ..m },
            ActionsModel { wrote: Some(record_of(l)), fire_signal: false, stop: false, failure: None },
        ),
        EventModel::NoMoreData => {
            if m.follow {
                (
                    OrchModel { fired: true, phase: Phase::Following, ..m },
                    ActionsModel { wrote: None, fire_signal: !m.fired, stop: false, failure: None },
                )
            } else {
                (
                    OrchModel { fired: true, phase: Phase::Drained, ..m },
                    ActionsModel { wrote: None, fire_signal: !m.fired, stop: true, failure: None },
                )
            }
        },
        EventModel::Fault(f) => (
            OrchModel { fired: true, phase: Phase::Failed, ..m },
            ActionsModel {
                wrote: None,
                fire_signal: !m.fired,
                stop: true,
                failure: Some(fault_error(f)),
            },
        ),
    }
}

/// The state after consuming a whole sequence of events, oldest first.
pub open spec fn run_model(m: OrchModel, evs: Seq<EventModel>) -> OrchModel
    decreases evs.len(),
{
    if evs.len() == 0 {
        m
    } else {
        run_model(step_model(m, evs[0]).0, evs.drop_first())
    }
}

/// How often the completion signal is fired while consuming the events.
pub open spec fn fires_in_run(m: OrchModel, evs: Seq<EventModel>) -> nat
    decreases evs.len(),
{
    if evs.len() == 0 {
        0
    } else {
        (if step_model(m, evs[0]).1.fire_signal {
            1nat
        } else {
            0nat
        }) + fires_in_run(step_model(m, evs[0]).0, evs.drop_first())
    }
}

/// Consuming a concatenation of event sequences is consuming the first,
/// then the second; the fire counts add up.
pub proof fn lemma_run_append(m: OrchModel, a: Seq<EventModel>, b: Seq<EventModel>)
    ensures
        run_model(m, a + b) == run_model(run_model(m, a), b),
        fires_in_run(m, a + b) == fires_in_run(m, a) + fires_in_run(run_model(m, a), b),
    decreases a.len(),
{
    if a.len() == 0 {
        assert(a + b =~= b);
    } else {
        let m1 = step_model(m, a[0]).0;
        assert((a + b)[0] == a[0]);
        assert((a + b).drop_first() =~= a.drop_first() + b);
        lemma_run_append(m1, a.drop_first(), b);
    }
}

/// Consuming a single event is one step of the transition function.
pub proof fn lemma_run_one(m: OrchModel, ev: EventModel)
    ensures
        run_model(m, seq![ev]) == step_model(m, ev).0,
        fires_in_run(m, seq![ev]) == (if step_model(m, ev).1.fire_signal {
            1nat
        } else {
            0nat
        }),
{
    let s = seq![ev];
    let m1 = step_model(m, ev).0;
    assert(s[0] == ev);
    assert(s.drop_first() =~= Seq::<EventModel>::empty());
    assert(run_model(m1, s.drop_first()) == m1);
    assert(fires_in_run(m1, s.drop_first()) == 0);
}

/// The events a sequence of produced lines turns into.
pub open spec fn line_events(lines: Seq<Seq<char>>) -> Seq<EventModel> {
    lines.map_values(|l: Seq<char>| EventModel::Line(l))
}

/// The records those lines are written as, in the same order.
pub open spec fn line_records(lines: Seq<Seq<char>>) -> Seq<Seq<char>> {
    lines.map_values(|l: Seq<char>| record_of(l))
}

/// Draining produced lines only appends their records, in order: the
/// phase, the follow mode and the signal bookkeeping are untouched, the
/// signal never fires, and everything written before stays in place.
pub proof fn lemma_lines_only_append(m: OrchModel, lines: Seq<Seq<char>>)
    ensures
        run_model(m, line_events(lines)) == (OrchModel {
            records: m.records + line_records(lines),
            ..m
        }),
        fires_in_run(m, line_events(lines)) == 0,
    decreases lines.len(),
{
    if lines.len() == 0 {
        assert(m.records + line_records(lines) =~= m.records);
        assert(run_model(m, line_events(lines)) == m);
        assert(OrchModel { records: m.records + line_records(lines), ..m } == m);
    } else {
        let ev0 = EventModel::Line(lines[0]);
        let m1 = OrchModel { records: m.records.push(record_of(lines[0])), ..m };
        assert(line_events(lines)[0] == ev0);
        assert(step_model(m, ev0).0 == m1);
        assert(line_events(lines).drop_first() =~= line_events(lines.drop_first()));
        lemma_lines_only_append(m1, lines.drop_first());
        assert(m1.records + line_records(lines.drop_first()) =~= m.records + line_records(lines));
    }
}

/// The completion signal fires at most once over any sequence of events,
/// whatever state the orchestrator starts in and whatever its terminal
/// state turns out to be; once it has been fired it never fires again.
pub proof fn lemma_signal_fires_at_most_once(m: OrchModel, evs: Seq<EventModel>)
    ensures
        fires_in_run(m, evs) <= 1,
        m.fired ==> fires_in_run(m, evs) == 0,
    decreases evs.len(),
{
    if evs.len() > 0 {
        let (m1, out) = step_model(m, evs[0]);
        lemma_signal_fires_at_most_once(m1, evs.drop_first());
        if out.fire_signal {
            assert(m1.fired);
        }
        if m.fired {
            assert(m1.fired);
        }
    }
}

/// A full drain of a non-following source: after the lines that were
/// available and the first end of data, the store holds exactly those
/// lines' records in their original order, the run ends in `Drained`,
/// and the completion signal has fired exactly once — after every one of
/// those records was written.
pub proof fn lemma_full_drain_not_following(lines: Seq<Seq<char>>)
    ensures
        ({
            let evs = line_events(lines).push(EventModel::NoMoreData);
            let r = run_model(init_model(false), evs);
            &&& r.records == line_records(lines)
            &&& r.phase == Phase::Drained
            &&& r.fired
            &&& fires_in_run(init_model(false), evs) == 1
        }),
{
    let m0 = init_model(false);
    let evs = line_events(lines).push(EventModel::NoMoreData);
    let tail = seq![EventModel::NoMoreData];
    assert(evs =~= line_events(lines) + tail);
    lemma_run_append(m0, line_events(lines), tail);
    lemma_lines_only_append(m0, lines);
    let m1 = run_model(m0, line_events(lines));
    assert(m1.records =~= line_records(lines));
    lemma_run_one(m1, EventModel::NoMoreData);
    assert(run_model(m0, evs) == step_model(m1, EventModel::NoMoreData).0);
}

/// Follow mode keeps order across the handoff point: the lines available
/// before the first end of data stand first, in order and untouched, and
/// the lines that arrive afterwards stand after them, in order; the
/// signal fires exactly once, at the end of the initial backlog, and the
/// run stays in `Following`.
pub proof fn lemma_follow_appends_in_order(first: Seq<Seq<char>>, later: Seq<Seq<char>>)
    ensures
        ({
            let evs = line_events(first) + seq![EventModel::NoMoreData] + line_events(later);
            let r = run_model(init_model(true), evs);
            &&& r.records == line_records(first) + line_records(later)
            &&& r.records.take(first.len() as int) == line_records(first)
            &&& r.phase == Phase::Following
            &&& fires_in_run(init_model(true), evs) == 1
        }),
{
    let m0 = init_model(true);
    let evs = line_events(first) + seq![EventModel::NoMoreData] + line_events(later);
    let mid = seq![EventModel::NoMoreData];
    assert(evs =~= line_events(first) + (mid + line_events(later)));
    lemma_run_append(m0, line_events(first), mid + line_events(later));
    lemma_lines_only_append(m0, first);
    let m1 = run_model(m0, line_events(first));
    assert(m1.records =~= line_records(first));
    lemma_run_append(m1, mid, line_events(later));
    lemma_run_one(m1, EventModel::NoMoreData);
    let m2 = step_model(m1, EventModel::NoMoreData).0;
    assert(run_model(m1, mid) == m2);
    lemma_lines_only_append(m2, later);
    let r = run_model(m0, evs);
    assert(r.records =~= line_records(first) + line_records(later));
    assert(r.records.take(first.len() as int) =~= line_records(first));
}

/// A command source that emits some lines and then exits with a non-zero
/// status: the store holds exactly those lines' records, the run ends in
/// `Failed` with `ChildExitFault` carrying that status — never a clean
/// completion — and the signal still fires exactly once.
pub proof fn lemma_child_exit_fault(lines: Seq<Seq<char>>, code: i32)
    requires
        code != 0,
    ensures
        ({
            let evs = line_events(lines).push(
                EventModel::Fault(SourceFault::ChildExit(code)),
            );
            let r = run_model(init_model(true), evs);
            let last = step_model(
                run_model(init_model(true), line_events(lines)),
                EventModel::Fault(SourceFault::ChildExit(code)),
            ).1;
            &&& r.records == line_records(lines)
            &&& r.phase == Phase::Failed
            &&& last.failure == Some(RunError::ChildExitFault(code))
            &&& last.stop
            &&& fires_in_run(init_model(true), evs) == 1
        }),
{
    let m0 = init_model(true);
    let fault = EventModel::Fault(SourceFault::ChildExit(code));
    let evs = line_events(lines).push(fault);
    let tail = seq![fault];
    assert(evs =~= line_events(lines) + tail);
    lemma_run_append(m0, line_events(lines), tail);
    lemma_lines_only_append(m0, lines);
    let m1 = run_model(m0, line_events(lines));
    assert(m1.records =~= line_records(lines));
    lemma_run_one(m1, fault);
    assert(run_model(m0, evs) == step_model(m1, fault).0);
}

/// Dumping is deterministic: the store text after a full non-following
/// drain is a function of the source lines alone, so running the dump
/// mode twice against the same unchanged source prints byte-identical
/// text both times.
pub proof fn lemma_dump_deterministic(lines: Seq<Seq<char>>)
    ensures
        ({
            let evs = line_events(lines).push(EventModel::NoMoreData);
            store_text(run_model(init_model(false), evs).records) == store_text(
                line_records(lines),
            )
        }),
{
    lemma_full_drain_not_following(lines);
}

/// The orchestrator as the driving loop holds it. It owns the sink; its
/// phase, follow mode and signal bookkeeping are private and reached
/// through the model.
pub struct Orchestrator {
    follow: bool,
    fired: bool,
    phase: Phase,
    sink: SinkBuffer,
}

impl View for Orchestrator {
    type V = OrchModel;

    closed spec fn view(&self) -> OrchModel {
        OrchModel {
            follow: self.follow,
            fired: self.fired,
            phase: self.phase,
            records: self.sink@,
        }
    }
}

impl Orchestrator {
    /// A fresh orchestrator for one run.
    pub fn new(follow: bool) -> (r: Orchestrator)
        ensures
            r@ == init_model(follow),
    {
        let r = Orchestrator { follow, fired: false, phase: Phase::Draining, sink: SinkBuffer::new() };
        proof {
            assert(r@ =~= init_model(follow));
        }
        r
    }

    /// The current phase.
    pub fn phase(&self) -> (r: Phase)
        ensures
            r == self@.phase,
    {
        self.phase
    }

    /// Whether the completion signal has been fired.
    pub fn signal_fired(&self) -> (r: bool)
        ensures
            r == self@.fired,
    {
        self.fired
    }

    /// Read access to the sink for the consumer after handoff.
    pub fn sink(&self) -> (r: &SinkBuffer)
        ensures
            r@ == self@.records,
    {
        &self.sink
    }

    /// Consumes one event and returns the actions the driving loop must
    /// carry out. The new state and the actions are exactly one step of
    /// the state machine's transition function.
    pub fn on_event(&mut self, ev: ReadEvent) -> (out: StepActions)
        requires
            !phase_is_terminal(old(self)@.phase),
        ensures
            final(self)@ == step_model(old(self)@, ev@).0,
            out@ == step_model(old(self)@, ev@).1,
    {
        match ev {
            ReadEvent::Line(text) => {
                let ghost l = text@;
                let record = text.concat("\n");
                let mirror = record.clone();
                self.sink.append(record);
                proof {
                    assert(self@ =~= step_model(old(self)@, EventModel::Line(l)).0);
                }
                StepActions { wrote: Some(mirror), fire_signal: false, stop: false, failure: None }
            },
            ReadEvent::NoMoreData => {
                let fire = !self.fired;
                self.fired = true;
                if self.follow {
                    self.phase = Phase::Following;
                    proof {
                        assert(self@ =~= step_model(old(self)@, EventModel::NoMoreData).0);
                    }
                    StepActions { wrote: None, fire_signal: fire, stop: false, failure: None }
                } else {
                    self.phase = Phase::Drained;
                    proof {
                        assert(self@ =~= step_model(old(self)@, EventModel::NoMoreData).0);
                    }
                    StepActions { wrote: None, fire_signal: fire, stop: true, failure: None }
                }
            },
            ReadEvent::Fault(f) => {
                let fire = !self.fired;
                self.fired = true;
                self.phase = Phase::Failed;
                let err = match f {
                    SourceFault::Read => RunError::StreamFault,
                    SourceFault::ChildExit(code) => RunError::ChildExitFault(code),
                };
                proof {
                    assert(self@ =~= step_model(old(self)@, EventModel::Fault(f)).0);
                }
                StepActions { wrote: None, fire_signal: fire, stop: true, failure: Some(err) }
            },
        }
    }
}

} // verus!
