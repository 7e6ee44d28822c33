//! The polling cycle, as a state machine.
//!
//! A cycle acquires the pressure, reads the two thermometers, appends the
//! record to the log and rests. A cycle whose acquisition fails is skipped:
//! it goes straight to its rest. A thermometer that fails costs only its own
//! value. The machine decides; the caller acts and reports.

use vstd::prelude::*;
use crate::acquisition::{initial, outlook, run, BusEvent, Progress, SCRIPT_LENGTH};
use crate::acquisition::a_failed_action_fails_the_acquisition;
use crate::record::{record_of, Ms5611Data, SensorRecord};
use crate::thermometer::ThermometerError;

verus! {

/// Time between two cycles, in milliseconds.
pub const CYCLE_INTERVAL_MILLIS: u64 = 5000;

/// Something for the caller to do.
#[derive(Clone, Copy, Debug, PartialEq, Eq)]
pub enum PollAction {
    /// Run one pressure acquisition.
    Acquire,
    /// Read the thermometer of this slot, 0 or 1.
    ReadThermometer { slot: usize },
    /// Append this record to the log as one line.
    Append(SensorRecord),
    /// Let this many milliseconds pass.
    Rest { millis: u64 },
}

/// What became of an action.
#[derive(Clone, Copy, Debug, PartialEq, Eq)]
pub enum PollEvent {
    /// The acquisition gave this reading.
    Acquired(Ms5611Data),
    /// The thermometer gave this outcome.
    Temperature(Result<i32, ThermometerError>),
    /// The record was appended, or the rest is over.
    Done,
    /// The action failed.
    Failed,
}

/// Where the cycle stands.
#[derive(Clone, Copy, Debug, PartialEq, Eq)]
pub enum Poll {
    /// Waiting for the pressure acquisition.
    Acquiring,
    /// Waiting for the first thermometer.
    ReadingFirst { data: Ms5611Data },
    /// Waiting for the second thermometer.
    ReadingSecond { data: Ms5611Data, first: Result<i32, ThermometerError> },
    /// Waiting for the log.
    Appending { record: SensorRecord },
    /// Waiting for the next cycle.
    Resting,
}

/// What the end of an acquisition is to the poll: its reading where it
/// finished, a failure otherwise.
pub open spec fn event_of(end: Progress) -> PollEvent {
    match end {
        Progress::Finished(data) => PollEvent::Acquired(data),
        _ => PollEvent::Failed,
    }
}

/// The thermometer outcome that an event stands for: its own where it
/// carries one, an unreadable report otherwise.
pub open spec fn outcome_in(event: PollEvent) -> Result<i32, ThermometerError> {
    match event {
        PollEvent::Temperature(outcome) => outcome,
        _ => Err(ThermometerError::Unreadable),
    }
}

/// What a state asks of the caller.
pub open spec fn request(state: Poll) -> PollAction {
    match state {
        Poll::Acquiring => PollAction::Acquire,
        Poll::ReadingFirst { .. } => PollAction::ReadThermometer { slot: 0 },
        Poll::ReadingSecond { .. } => PollAction::ReadThermometer { slot: 1 },
        Poll::Appending { record } => PollAction::Append(record),
        Poll::Resting => PollAction::Rest { millis: 5000 },
    }
}

/// The state after an event.
pub open spec fn after(state: Poll, event: PollEvent) -> Poll {
    match state {
        Poll::Acquiring => match event {
            PollEvent::Acquired(data) => Poll::ReadingFirst { data },
            _ => Poll::Resting,
        },
        Poll::ReadingFirst { data } => Poll::ReadingSecond { data, first: outcome_in(event) },
        Poll::ReadingSecond { data, first } => Poll::Appending {
            record: record_of(data, first, outcome_in(event)),
        },
        Poll::Appending { .. } => Poll::Resting,
        Poll::Resting => Poll::Acquiring,
    }
}

/// The log after an event: one record longer where the event says that the
/// pending append went through, unchanged otherwise.
pub open spec fn log_after(log: Seq<SensorRecord>, state: Poll, event: PollEvent) -> Seq<
    SensorRecord,
> {
    match state {
        Poll::Appending { record } => if event is Done {
            log.push(record)
        } else {
            log
        },
        _ => log,
    }
}

/// State and log after a sequence of events, the first of them first.
pub open spec fn course(state: Poll, log: Seq<SensorRecord>, events: Seq<PollEvent>) -> (
    Poll,
    Seq<SensorRecord>,
)
    decreases events.len(),
{
    if events.len() == 0 {
        (state, log)
    } else {
        let before = course(state, log, events.drop_last());
        (after(before.0, events.last()), log_after(before.1, before.0, events.last()))
    }
}

impl PollEvent {
    /// The event that reports how an acquisition ended.
    pub fn of_acquisition(end: Progress) -> (event: PollEvent)
        ensures
            event == event_of(end),
    {
        match end {
            Progress::Finished(data) => PollEvent::Acquired(data),
            _ => PollEvent::Failed,
        }
    }
}

impl Poll {
    /// A poll at the start of a cycle.
    pub fn new() -> (poll: Poll)
        ensures
            poll == Poll::Acquiring,
    {
        Poll::Acquiring
    }

    /// What the poll asks for now.
    pub fn action(&self) -> (action: PollAction)
        ensures
            action == request(*self),
    {
        match self {
            Poll::Acquiring => PollAction::Acquire,
            Poll::ReadingFirst { .. } => PollAction::ReadThermometer { slot: 0 },
            Poll::ReadingSecond { .. } => PollAction::ReadThermometer { slot: 1 },
            Poll::Appending { record } => PollAction::Append(*record),
            Poll::Resting => PollAction::Rest { millis: CYCLE_INTERVAL_MILLIS },
        }
    }

    /// Takes in what became of the pending action and says what comes next.
    pub fn advance(&mut self, event: &PollEvent) -> (next: PollAction)
        ensures
            *final(self) == after(*old(self), *event),
            next == request(*final(self)),
    {
        let unreadable: Result<i32, ThermometerError> = Err(ThermometerError::Unreadable);
        let outcome: Result<i32, ThermometerError> = match event {
            PollEvent::Temperature(outcome) => *outcome,
            _ => unreadable,
        };
        let state: Poll = match *self {
            Poll::Acquiring => match event {
                PollEvent::Acquired(data) => Poll::ReadingFirst { data: *data },
                _ => Poll::Resting,
            },
            Poll::ReadingFirst { data } => Poll::ReadingSecond { data, first: outcome },
            Poll::ReadingSecond { data, first } => Poll::Appending {
                record: SensorRecord::assemble(data, &first, &outcome),
            },
            Poll::Appending { .. } => Poll::Resting,
            Poll::Resting => Poll::Acquiring,
        };
        *self = state;
        self.action()
    }
}

/// A cycle whose acquisition fails asks for nothing but its rest and leaves
/// the log as it was.
pub proof fn a_failed_acquisition_is_skipped(
    log: Seq<SensorRecord>,
    failure: PollEvent,
    rested: PollEvent,
)
    requires
        !(failure is Acquired),
    ensures
        request(after(Poll::Acquiring, failure)) == (PollAction::Rest { millis: 5000 }),
        course(Poll::Acquiring, log, seq![failure]) == (Poll::Resting, log),
        course(Poll::Acquiring, log, seq![failure, rested]) == (Poll::Acquiring, log),
{
    let one = seq![failure];
    let two = seq![failure, rested];
    assert(one.drop_last() =~= Seq::<PollEvent>::empty());
    assert(course(Poll::Acquiring, log, one.drop_last()) == (Poll::Acquiring, log));
    assert(two.drop_last() =~= one);
}

/// A cycle in which any action on the bus is answered with a failure
/// appends nothing: the acquisition gives no reading, and the poll goes to
/// its rest and on to the next cycle with the log as it was.
pub proof fn a_bus_failure_skips_the_cycle(
    log: Seq<SensorRecord>,
    answers: Seq<BusEvent>,
    at: int,
    rested: PollEvent,
)
    requires
        0 <= at < answers.len(),
        at < SCRIPT_LENGTH,
        answers[at] is Failed,
    ensures
        event_of(outlook(run(initial(), answers))) == PollEvent::Failed,
        course(
            Poll::Acquiring,
            log,
            seq![event_of(outlook(run(initial(), answers))), rested],
        ) == (Poll::Acquiring, log),
{
    a_failed_action_fails_the_acquisition(answers, at);
    a_failed_acquisition_is_skipped(log, PollEvent::Failed, rested);
}

/// A cycle whose acquisition succeeds appends exactly one record, whatever
/// the thermometers do: it holds the pressure reading, and for each
/// thermometer its value, or the placeholder where that thermometer failed.
pub proof fn a_degraded_record_is_logged(
    log: Seq<SensorRecord>,
    data: Ms5611Data,
    first: Result<i32, ThermometerError>,
    second: Result<i32, ThermometerError>,
    rested: PollEvent,
)
    ensures
        course(
            Poll::Acquiring,
            log,
            seq![
                PollEvent::Acquired(data),
                PollEvent::Temperature(first),
                PollEvent::Temperature(second),
                PollEvent::Done,
                rested,
            ],
        ) == (Poll::Acquiring, log.push(record_of(data, first, second))),
        record_of(data, first, second).ms5611 == data,
        first is Err ==> record_of(data, first, second).ds18b20_1_milli == 0,
        second is Err ==> record_of(data, first, second).ds18b20_2_milli == 0,
        first is Ok ==> record_of(data, first, second).ds18b20_1_milli == first.unwrap(),
        second is Ok ==> record_of(data, first, second).ds18b20_2_milli == second.unwrap(),
{
    let e0 = PollEvent::Acquired(data);
    let e1 = PollEvent::Temperature(first);
    let e2 = PollEvent::Temperature(second);
    let e3 = PollEvent::Done;
    let s0 = Seq::<PollEvent>::empty();
    let s1 = seq![e0];
    let s2 = seq![e0, e1];
    let s3 = seq![e0, e1, e2];
    let s4 = seq![e0, e1, e2, e3];
    let s5 = seq![e0, e1, e2, e3, rested];
    assert(s1.drop_last() =~= s0);
    assert(s2.drop_last() =~= s1);
    assert(s3.drop_last() =~= s2);
    assert(s4.drop_last() =~= s3);
    assert(s5.drop_last() =~= s4);
    assert(course(Poll::Acquiring, log, s0) == (Poll::Acquiring, log));
    assert(course(Poll::Acquiring, log, s1) == (Poll::ReadingFirst { data }, log));
    assert(course(Poll::Acquiring, log, s2) == (Poll::ReadingSecond { data, first }, log));
    assert(course(Poll::Acquiring, log, s3) == (
        Poll::Appending { record: record_of(data, first, second) },
        log,
    ));
    assert(course(Poll::Acquiring, log, s4) == (
        Poll::Resting,
        log.push(record_of(data, first, second)),
    ));
}

/// A record whose append fails is dropped: the cycle goes to its rest and
/// the log stays as it was.
pub proof fn a_failed_append_drops_the_record(
    log: Seq<SensorRecord>,
    record: SensorRecord,
    failure: PollEvent,
)
    requires
        !(failure is Done),
    ensures
        after(Poll::Appending { record }, failure) == Poll::Resting,
        log_after(log, Poll::Appending { record }, failure) == log,
{
}

/// Whatever happens, the log keeps what it held: events only ever add
/// records at its end.
pub proof fn the_log_only_grows(state: Poll, log: Seq<SensorRecord>, events: Seq<PollEvent>)
    ensures
        course(state, log, events).1.len() >= log.len(),
        course(state, log, events).1.subrange(0, log.len() as int) == log,
    decreases events.len(),
{
    if events.len() == 0 {
        assert(log.subrange(0, log.len() as int) =~= log);
    } else {
        the_log_only_grows(state, log, events.drop_last());
        let before = course(state, log, events.drop_last());
        let now = course(state, log, events);
        assert(now.1.subrange(0, log.len() as int) =~= before.1.subrange(0, log.len() as int));
    }
}

} // verus!
