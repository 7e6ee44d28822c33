//! The bus protocol of one pressure acquisition, as a state machine.
//!
//! The machine owns no bus. It names the next action; the caller performs it
//! and reports what happened. One acquisition is a fixed script: open the bus,
//! convert and read the pressure, convert and read the temperature, then
//! fetch the six calibration words. Any action that fails ends the
//! acquisition; nothing is tried twice.

use vstd::prelude::*;
use crate::calibration::{
    calibration_address, word_address, word_from_bytes, word_value, CalibrationSet,
};
use crate::compensation::{raw_from_bytes, raw_value, RawConversion};
use crate::record::{measure, measurement, Ms5611Data};

verus! {

/// Index of the two-wire bus that the sensor sits on.
pub const BUS_INDEX: u8 = 1;

/// Address of the sensor on that bus.
pub const SENSOR_ADDRESS: u16 = 0x77;

/// Command that starts a pressure conversion.
pub const CONVERT_PRESSURE: u8 = 0x48;

/// Command that starts a temperature conversion.
pub const CONVERT_TEMPERATURE: u8 = 0x58;

/// Command that asks for the result of the last conversion.
pub const READ_RESULT: u8 = 0x00;

/// Time that a conversion takes, in milliseconds.
pub const CONVERSION_DELAY_MILLIS: u64 = 50;

/// Time to wait after a calibration word was addressed, in milliseconds.
pub const CALIBRATION_DELAY_MILLIS: u64 = 10;

/// Number of actions in the script of one acquisition.
pub const SCRIPT_LENGTH: usize = 27;

/// Something for the caller to do on the bus.
#[derive(Clone, Copy, Debug, PartialEq, Eq, Structural)]
pub enum BusAction {
    /// Open the bus with this index and select the peripheral at this address.
    Open { bus: u8, address: u16 },
    /// Write this one byte.
    Write { byte: u8 },
    /// Let this many milliseconds pass.
    Wait { millis: u64 },
    /// Read exactly this many bytes.
    Read { count: usize },
}

/// What became of an action.
#[derive(Debug, PartialEq, Eq)]
pub enum BusEvent {
    /// The bus was opened, the byte was written or the time has passed.
    Done,
    /// These bytes were read.
    Bytes(Vec<u8>),
    /// The transport reported an error.
    Failed,
}

/// Where an acquisition stands.
#[derive(Clone, Copy, Debug, PartialEq, Eq, Structural)]
pub enum Progress {
    /// This action is to be performed next.
    Perform(BusAction),
    /// Every action went through; this is the reading.
    Finished(Ms5611Data),
    /// An action failed; the acquisition gives no reading.
    Failed,
}

/// The state of an acquisition as contracts see it.
pub struct AcquisitionState {
    /// How many actions of the script have been answered.
    pub answered: nat,
    /// Whether an action has failed.
    pub failed: bool,
    /// The conversions read so far; zero where none was read yet.
    pub raw: RawConversion,
    /// The calibration words read so far; zero where none was read yet.
    pub calibration: CalibrationSet,
}

/// An acquisition in progress.
pub struct Acquisition {
    answered: usize,
    failed: bool,
    raw: RawConversion,
    calibration: CalibrationSet,
}

/// The action at a position of the script, counted from zero.
pub open spec fn script(position: int) -> BusAction {
    if position == 0 {
        BusAction::Open { bus: 1, address: 0x77 }
    } else if position <= 8 {
        let phase = (position - 1) % 4;
        if phase == 0 {
            BusAction::Write { byte: if position == 1 { 0x48u8 } else { 0x58u8 } }
        } else if phase == 1 {
            BusAction::Wait { millis: 50 }
        } else if phase == 2 {
            BusAction::Write { byte: 0 }
        } else {
            BusAction::Read { count: 3 }
        }
    } else {
        let phase = (position - 9) % 3;
        if phase == 0 {
            BusAction::Write { byte: word_address((position - 9) / 3) as u8 }
        } else if phase == 1 {
            BusAction::Wait { millis: 10 }
        } else {
            BusAction::Read { count: 2 }
        }
    }
}

/// The event is a proper answer to the action: bytes of the number asked
/// for to a read, plain completion to anything else.
pub open spec fn accepts(action: BusAction, event: BusEvent) -> bool {
    match action {
        BusAction::Read { count } => event matches BusEvent::Bytes(bytes) && bytes@.len()
            == count,
        _ => event is Done,
    }
}

/// The bytes that an event carries; none where it carries none.
pub open spec fn reply(event: BusEvent) -> Seq<u8> {
    match event {
        BusEvent::Bytes(bytes) => bytes@,
        _ => Seq::empty(),
    }
}

/// The state before the first action.
pub open spec fn initial() -> AcquisitionState {
    AcquisitionState {
        answered: 0,
        failed: false,
        raw: RawConversion { d1: 0, d2: 0 },
        calibration: CalibrationSet { c1: 0, c2: 0, c3: 0, c4: 0, c5: 0, c6: 0 },
    }
}

/// The state is neither failed nor through with the script.
pub open spec fn running(state: AcquisitionState) -> bool {
    !state.failed && state.answered < SCRIPT_LENGTH
}

/// The running state after its pending action was answered properly.
pub open spec fn absorbed(state: AcquisitionState, event: BusEvent) -> AcquisitionState {
    let position = state.answered as int;
    let bytes = reply(event);
    let next = AcquisitionState { answered: state.answered + 1, ..state };
    if position == 4 {
        AcquisitionState {
            raw: RawConversion { d1: raw_value(bytes[0], bytes[1], bytes[2]) as u32, ..state.raw },
            ..next
        }
    } else if position == 8 {
        AcquisitionState {
            raw: RawConversion { d2: raw_value(bytes[0], bytes[1], bytes[2]) as u32, ..state.raw },
            ..next
        }
    } else if position >= 9 && (position - 9) % 3 == 2 {
        AcquisitionState {
            calibration: state.calibration.replaced(
                (position - 9) / 3,
                word_value(bytes[0], bytes[1]) as u16,
            ),
            ..next
        }
    } else {
        next
    }
}

/// The state after an event. A state that has failed or finished stays as it
/// is; a running one moves on where the event answers its pending action,
/// and fails otherwise.
pub open spec fn step(state: AcquisitionState, event: BusEvent) -> AcquisitionState {
    if !running(state) {
        state
    } else if accepts(script(state.answered as int), event) {
        absorbed(state, event)
    } else {
        AcquisitionState { failed: true, ..state }
    }
}

/// What a state asks of the caller.
pub open spec fn outlook(state: AcquisitionState) -> Progress {
    if state.failed {
        Progress::Failed
    } else if state.answered < SCRIPT_LENGTH {
        Progress::Perform(script(state.answered as int))
    } else {
        Progress::Finished(measurement(state.calibration, state.raw))
    }
}

/// The state after a sequence of events, the first of them first.
pub open spec fn run(state: AcquisitionState, events: Seq<BusEvent>) -> AcquisitionState
    decreases events.len(),
{
    if events.len() == 0 {
        state
    } else {
        step(run(state, events.drop_last()), events.last())
    }
}

/// The action at a position of the script.
pub fn action_at(position: usize) -> (action: BusAction)
    requires
        position < SCRIPT_LENGTH,
    ensures
        action == script(position as int),
{
    if position == 0 {
        BusAction::Open { bus: BUS_INDEX, address: SENSOR_ADDRESS }
    } else if position <= 8 {
        let phase: usize = (position - 1) % 4;
        if phase == 0 {
            if position == 1 {
                BusAction::Write { byte: CONVERT_PRESSURE }
            } else {
                BusAction::Write { byte: CONVERT_TEMPERATURE }
            }
        } else if phase == 1 {
            BusAction::Wait { millis: CONVERSION_DELAY_MILLIS }
        } else if phase == 2 {
            BusAction::Write { byte: READ_RESULT }
        } else {
            BusAction::Read { count: 3 }
        }
    } else {
        let phase: usize = (position - 9) % 3;
        if phase == 0 {
            BusAction::Write { byte: calibration_address((position - 9) / 3) }
        } else if phase == 1 {
            BusAction::Wait { millis: CALIBRATION_DELAY_MILLIS }
        } else {
            BusAction::Read { count: 2 }
        }
    }
}

impl Acquisition {
    #[verifier::type_invariant]
    spec fn valid(&self) -> bool {
        self.answered <= SCRIPT_LENGTH && self.raw.wf()
    }

    /// The state of this acquisition.
    pub closed spec fn view(&self) -> AcquisitionState {
        AcquisitionState {
            answered: self.answered as nat,
            failed: self.failed,
            raw: self.raw,
            calibration: self.calibration,
        }
    }

    /// An acquisition before its first action.
    pub fn new() -> (acquisition: Acquisition)
        ensures
            acquisition@ == initial(),
    {
        Acquisition {
            answered: 0,
            failed: false,
            raw: RawConversion { d1: 0, d2: 0 },
            calibration: CalibrationSet::empty(),
        }
    }

    /// What the acquisition asks for now.
    pub fn progress(&self) -> (now: Progress)
        ensures
            now == outlook(self@),
    {
        proof {
            use_type_invariant(self);
        }
        if self.failed {
            Progress::Failed
        } else if self.answered < SCRIPT_LENGTH {
            Progress::Perform(action_at(self.answered))
        } else {
            Progress::Finished(measure(&self.calibration, &self.raw))
        }
    }

    /// Takes in what became of the pending action and says what comes next.
    pub fn advance(&mut self, event: &BusEvent) -> (next: Progress)
        ensures
            final(self)@ == step(old(self)@, *event),
            next == outlook(final(self)@),
    {
        proof {
            use_type_invariant(&*self);
        }
        if !self.failed && self.answered < SCRIPT_LENGTH {
            let position: usize = self.answered;
            match event {
                BusEvent::Done => {
                    if position == 4 || position == 8 || (position >= 9 && (position - 9) % 3
                        == 2) {
                        self.failed = true;
                    } else {
                        self.answered = position + 1;
                    }
                },
                BusEvent::Bytes(bytes) => {
                    if position == 4 && bytes.len() == 3 {
                        let d1: u32 = raw_from_bytes(bytes[0], bytes[1], bytes[2]);
                        self.raw = RawConversion { d1, d2: self.raw.d2 };
                        self.answered = position + 1;
                    } else if position == 8 && bytes.len() == 3 {
                        let d2: u32 = raw_from_bytes(bytes[0], bytes[1], bytes[2]);
                        self.raw = RawConversion { d1: self.raw.d1, d2 };
                        self.answered = position + 1;
                    } else if position >= 9 && (position - 9) % 3 == 2 && bytes.len() == 2 {
                        let word: u16 = word_from_bytes(bytes[0], bytes[1]);
                        self.calibration = self.calibration.with_word((position - 9) / 3, word);
                        self.answered = position + 1;
                    } else {
                        self.failed = true;
                    }
                },
                BusEvent::Failed => {
                    self.failed = true;
                },
            }
        }
        self.progress()
    }
}

/// The bytes of an event as a raw conversion.
pub open spec fn conversion_in(event: BusEvent) -> u32 {
    raw_value(reply(event)[0], reply(event)[1], reply(event)[2]) as u32
}

/// The bytes of an event as a calibration word.
pub open spec fn word_in(event: BusEvent) -> u16 {
    word_value(reply(event)[0], reply(event)[1]) as u16
}

/// The reading that the answers to one whole script hold.
pub open spec fn reading_in(events: Seq<BusEvent>) -> Ms5611Data {
    measurement(
        CalibrationSet {
            c1: word_in(events[11]),
            c2: word_in(events[14]),
            c3: word_in(events[17]),
            c4: word_in(events[20]),
            c5: word_in(events[23]),
            c6: word_in(events[26]),
        },
        RawConversion { d1: conversion_in(events[4]), d2: conversion_in(events[8]) },
    )
}

/// The state after the first `count` actions were answered properly.
spec fn gathered(events: Seq<BusEvent>, count: int) -> AcquisitionState {
    AcquisitionState {
        answered: count as nat,
        failed: false,
        raw: RawConversion {
            d1: if count > 4 { conversion_in(events[4]) } else { 0 },
            d2: if count > 8 { conversion_in(events[8]) } else { 0 },
        },
        calibration: CalibrationSet {
            c1: if count > 11 { word_in(events[11]) } else { 0 },
            c2: if count > 14 { word_in(events[14]) } else { 0 },
            c3: if count > 17 { word_in(events[17]) } else { 0 },
            c4: if count > 20 { word_in(events[20]) } else { 0 },
            c5: if count > 23 { word_in(events[23]) } else { 0 },
            c6: if count > 26 { word_in(events[26]) } else { 0 },
        },
    }
}

proof fn answers_are_gathered(events: Seq<BusEvent>, count: int)
    requires
        0 <= count <= SCRIPT_LENGTH,
        count <= events.len(),
        forall|i: int| 0 <= i < count ==> accepts(script(i), #[trigger] events[i]),
    ensures
        run(initial(), events.take(count)) == gathered(events, count),
    decreases count,
{
    if count > 0 {
        answers_are_gathered(events, count - 1);
        assert(events.take(count).drop_last() =~= events.take(count - 1));
        assert(events.take(count).last() == events[count - 1]);
        assert(accepts(script(count - 1), events[count - 1]));
    }
}

proof fn no_event_answers_twice(events: Seq<BusEvent>)
    ensures
        run(initial(), events).answered <= events.len(),
        run(initial(), events).answered <= SCRIPT_LENGTH,
    decreases events.len(),
{
    if events.len() > 0 {
        no_event_answers_twice(events.drop_last());
    }
}

proof fn failure_spreads(events: Seq<BusEvent>, at: int, count: int)
    requires
        0 <= at < count <= events.len(),
        at < SCRIPT_LENGTH,
        !(events[at] is Done),
        !(events[at] is Bytes),
    ensures
        run(initial(), events.take(count)).failed,
    decreases count,
{
    assert(events.take(count).drop_last() =~= events.take(count - 1));
    assert(events.take(count).last() == events[count - 1]);
    if count == at + 1 {
        no_event_answers_twice(events.take(at));
    } else {
        failure_spreads(events, at, count - 1);
    }
}

/// The script is the sensor's protocol: open the bus; for the pressure and
/// then the temperature, start the conversion, wait out the conversion
/// time, ask for the result and read three bytes; then, for each of the six
/// calibration words in the order of their addresses, write the address,
/// wait and read two bytes.
pub proof fn script_follows_the_protocol()
    ensures
        script(0) == (BusAction::Open { bus: 1, address: 0x77 }),
        script(1) == (BusAction::Write { byte: 0x48 }),
        script(5) == (BusAction::Write { byte: 0x58 }),
        forall|start: int|
            start == 1 || start == 5 ==> #[trigger] script(start + 1) == (BusAction::Wait {
                millis: 50,
            }) && script(start + 2) == (BusAction::Write { byte: 0x00 }) && script(start + 3) == (
            BusAction::Read { count: 3 }),
        forall|index: int|
            0 <= index < 6 ==> #[trigger] script(9 + 3 * index) == (BusAction::Write {
                byte: (0xA2 + 2 * index) as u8,
            }) && script(10 + 3 * index) == (BusAction::Wait { millis: 10 }) && script(
                11 + 3 * index,
            ) == (BusAction::Read { count: 2 }),
{
}

/// Once an acquisition has failed or finished, no event changes it.
pub proof fn an_ended_acquisition_stays(state: AcquisitionState, events: Seq<BusEvent>)
    requires
        !running(state),
    ensures
        run(state, events) == state,
    decreases events.len(),
{
    if events.len() > 0 {
        an_ended_acquisition_stays(state, events.drop_last());
    }
}

/// An acquisition in which any of the script's actions is answered with a
/// failure gives no reading, whatever the other answers are and whatever
/// follows.
pub proof fn a_failed_action_fails_the_acquisition(events: Seq<BusEvent>, at: int)
    requires
        0 <= at < events.len(),
        at < SCRIPT_LENGTH,
        events[at] is Failed,
    ensures
        outlook(run(initial(), events)) == Progress::Failed,
{
    failure_spreads(events, at, events.len() as int);
    assert(events.take(events.len() as int) =~= events);
}

/// An acquisition whose every action is answered properly finishes with the
/// reading that the formula gives for the bytes read: the fifth and the
/// ninth answer hold the conversions, every third answer from the twelfth on
/// a calibration word.
pub proof fn an_answered_script_gives_the_reading(events: Seq<BusEvent>)
    requires
        events.len() == SCRIPT_LENGTH,
        forall|i: int| 0 <= i < SCRIPT_LENGTH ==> accepts(script(i), #[trigger] events[i]),
    ensures
        outlook(run(initial(), events)) == Progress::Finished(reading_in(events)),
{
    answers_are_gathered(events, SCRIPT_LENGTH as int);
    assert(events.take(SCRIPT_LENGTH as int) =~= events);
}

/// An acquisition gives a reading only after all of the script was answered.
pub proof fn no_reading_before_the_script_ends(events: Seq<BusEvent>)
    requires
        events.len() < SCRIPT_LENGTH,
    ensures
        !(outlook(run(initial(), events)) is Finished),
{
    no_event_answers_twice(events);
}

} // verus!
