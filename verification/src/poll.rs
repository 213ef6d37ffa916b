//! The measurement polling state machine.
//!
//! A session configures the sensor, waits for the first sample and then reads
//! samples for as long as the bus holds up. The machine makes the decisions and
//! leaves the work to its caller: each step takes what the last driver call
//! brought back and answers with the next call to make. It never touches the
//! bus, so the whole of its behaviour is the transition function `Session::next`.

use crate::scd30::{
    all_groups_valid, decode_data_ready, decode_measurement, group_is_valid, group_word,
    measurement_of, Command, Error, SensorData,
};
use vstd::prelude::*;

verus! {

/// Length of a run of consecutive checksum failures that ends the session.
/// Shorter runs cost one discarded sample each.
pub const MAX_CONSECUTIVE_FAILURES: u8 = 3;

/// Where a session stands. A session only ever moves down this list.
#[derive(Clone, Copy, Debug, PartialEq, Eq, Structural)]
pub enum PollState {
    /// Created, nothing sent yet.
    Idle,
    /// The command that starts continuous measurement is under way.
    Configuring,
    /// Polling the data-ready flag until it is first set.
    AwaitingFirstSample,
    /// Reading one measurement after the other.
    Streaming,
    /// Ended by a failure. Only a new session gets out of here.
    Faulted,
}

/// What the caller reports to the machine.
#[derive(Clone, Copy, Debug, PartialEq, Eq, Structural)]
pub enum Event {
    /// The session is to start.
    Start,
    /// The sensor accepted the command that starts continuous measurement.
    Configured,
    /// The data-ready flag was read, with this value.
    Ready(bool),
    /// A measurement was read.
    Sample(SensorData),
    /// The last driver call failed with this error.
    Failed(Error),
}

/// What the machine asks its caller to do next.
#[derive(Clone, Copy, Debug, PartialEq, Eq, Structural)]
pub enum Action {
    /// Nothing, until the session is started.
    Standby,
    /// Start continuous measurement with this ambient pressure in millibar.
    Configure(u16),
    /// Poll the data-ready flag.
    PollReady,
    /// Read a measurement.
    ReadSample,
    /// Stop: the session has ended with this error.
    Halt(Error),
}

/// The answer to one event.
#[derive(Clone, Copy, Debug, PartialEq, Eq)]
pub struct Step {
    /// The next thing to do.
    pub action: Action,
    /// The measurement to pass on downstream, if the event delivered one.
    pub emitted: Option<SensorData>,
}

/// The abstract state of a session.
pub struct Session {
    /// Where the session stands.
    pub state: PollState,
    /// Ambient pressure the sensor is configured with.
    pub pressure: u16,
    /// Length of the current run of consecutive checksum failures.
    pub failures: nat,
    /// The error that ended the session, once it has ended.
    pub fault: Option<Error>,
}

impl Action {
    /// The command that carries out the action, if it takes one.
    pub open spec fn spec_command(self) -> Option<Command> {
        match self {
            Action::Configure(pressure) => Some(Command::StartContinuousMeasurement(pressure)),
            Action::PollReady => Some(Command::DataReady),
            Action::ReadSample => Some(Command::ReadMeasurement),
            Action::Standby => None,
            Action::Halt(_) => None,
        }
    }

    /// The event that the sensor's response to the action amounts to.
    ///
    /// Starting continuous measurement has no response, so anything but an
    /// empty one is of unexpected length. The other two responses are decoded,
    /// and what the decoder rejects is a failure. `Standby` and `Halt` ask for
    /// nothing, so no response answers them.
    pub open spec fn reply(self, response: Seq<u8>) -> Option<Event> {
        match self {
            Action::Configure(_) => Some(
                if response.len() == 0 {
                    Event::Configured
                } else {
                    Event::Failed(Error::UnexpectedResponseLength)
                },
            ),
            Action::PollReady => Some(
                if response.len() != 3 {
                    Event::Failed(Error::UnexpectedResponseLength)
                } else if !group_is_valid(response) {
                    Event::Failed(Error::ChecksumMismatch)
                } else {
                    Event::Ready(group_word(response) == 1)
                },
            ),
            Action::ReadSample => Some(
                if response.len() != 18 {
                    Event::Failed(Error::UnexpectedResponseLength)
                } else if !all_groups_valid(response) {
                    Event::Failed(Error::ChecksumMismatch)
                } else {
                    Event::Sample(measurement_of(response))
                },
            ),
            Action::Standby => None,
            Action::Halt(_) => None,
        }
    }

    /// Returns the command to send to the sensor for this action, if any.
    #[verifier::when_used_as_spec(spec_command)]
    pub fn command(self) -> (command: Option<Command>)
        ensures
            command == self.spec_command(),
    {
        match self {
            Action::Configure(pressure) => Some(Command::StartContinuousMeasurement(pressure)),
            Action::PollReady => Some(Command::DataReady),
            Action::ReadSample => Some(Command::ReadMeasurement),
            Action::Standby => None,
            Action::Halt(_) => None,
        }
    }

    /// Decodes the sensor's response to this action into the event to report.
    pub fn interpret(self, response: &[u8]) -> (event: Option<Event>)
        ensures
            event == self.reply(response@),
    {
        match self {
            Action::Configure(_) => if response.len() == 0 {
                Some(Event::Configured)
            } else {
                Some(Event::Failed(Error::UnexpectedResponseLength))
            },
            Action::PollReady => match decode_data_ready(response) {
                Ok(ready) => Some(Event::Ready(ready)),
                Err(error) => Some(Event::Failed(error)),
            },
            Action::ReadSample => match decode_measurement(response) {
                Ok(sample) => Some(Event::Sample(sample)),
                Err(error) => Some(Event::Failed(error)),
            },
            Action::Standby => None,
            Action::Halt(_) => None,
        }
    }
}

impl PollState {
    /// Position in the lifecycle.
    pub open spec fn rank(self) -> nat {
        match self {
            PollState::Idle => 0,
            PollState::Configuring => 1,
            PollState::AwaitingFirstSample => 2,
            PollState::Streaming => 3,
            PollState::Faulted => 4,
        }
    }
}

impl Session {
    /// A session that has not started.
    pub open spec fn initial(pressure: u16) -> Session {
        Session { state: PollState::Idle, pressure, failures: 0, fault: None }
    }

    /// What holds of every session that started from `initial`.
    pub open spec fn wf(self) -> bool {
        &&& self.failures < MAX_CONSECUTIVE_FAILURES
        &&& self.failures > 0 ==> self.is_polling()
        &&& self.state == PollState::Faulted <==> self.fault is Some
    }

    /// The session is waiting for the first sample or streaming.
    pub open spec fn is_polling(self) -> bool {
        self.state == PollState::AwaitingFirstSample || self.state == PollState::Streaming
    }

    /// The session survives this failure: it is a checksum mismatch, met while
    /// polling, that does not complete a run of `MAX_CONSECUTIVE_FAILURES`.
    pub open spec fn tolerates(self, error: Error) -> bool {
        &&& self.is_polling()
        &&& error == Error::ChecksumMismatch
        &&& self.failures + 1 < MAX_CONSECUTIVE_FAILURES
    }

    /// The session after `event`.
    ///
    /// A failure that is not tolerated ends the session, whatever its state. A
    /// tolerated one lengthens the run of failures and changes nothing else.
    /// Any other event counts only in the state that waits for it, where it
    /// ends the run of failures; elsewhere it is ignored. Nothing moves a
    /// session that has ended.
    pub open spec fn next(self, event: Event) -> Session {
        if self.state == PollState::Faulted {
            self
        } else {
            match event {
                Event::Failed(error) => if self.tolerates(error) {
                    Session { failures: self.failures + 1, ..self }
                } else {
                    Session { state: PollState::Faulted, failures: 0, fault: Some(error), ..self }
                },
                Event::Start => if self.state == PollState::Idle {
                    Session { state: PollState::Configuring, ..self }
                } else {
                    self
                },
                Event::Configured => if self.state == PollState::Configuring {
                    Session { state: PollState::AwaitingFirstSample, ..self }
                } else {
                    self
                },
                Event::Ready(ready) => if self.state == PollState::AwaitingFirstSample {
                    Session {
                        state: if ready {
                            PollState::Streaming
                        } else {
                            PollState::AwaitingFirstSample
                        },
                        failures: 0,
                        ..self
                    }
                } else {
                    self
                },
                Event::Sample(_) => if self.state == PollState::Streaming {
                    Session { failures: 0, ..self }
                } else {
                    self
                },
            }
        }
    }

    /// The measurement that `event` sends downstream: the sample itself, if
    /// the session is streaming, and nothing otherwise.
    pub open spec fn emits(self, event: Event) -> Option<SensorData> {
        match event {
            Event::Sample(sample) => if self.state == PollState::Streaming {
                Some(sample)
            } else {
                None
            },
            _ => None,
        }
    }

    /// The driver call that the session waits for.
    pub open spec fn pending(self) -> Action {
        match self.state {
            PollState::Idle => Action::Standby,
            PollState::Configuring => Action::Configure(self.pressure),
            PollState::AwaitingFirstSample => Action::PollReady,
            PollState::Streaming => Action::ReadSample,
            PollState::Faulted => Action::Halt(self.fault.unwrap()),
        }
    }

    /// The session after a sequence of events.
    pub open spec fn run(self, events: Seq<Event>) -> Session
        decreases events.len(),
    {
        if events.len() == 0 {
            self
        } else {
            self.run(events.drop_last()).next(events.last())
        }
    }

    /// The actions that answer a sequence of events, one for each.
    pub open spec fn actions(self, events: Seq<Event>) -> Seq<Action> {
        Seq::new(events.len(), |i: int| self.run(events.take(i + 1)).pending())
    }

    /// The measurements that a sequence of events sends downstream, in order.
    pub open spec fn emitted(self, events: Seq<Event>) -> Seq<SensorData>
        decreases events.len(),
    {
        if events.len() == 0 {
            Seq::empty()
        } else {
            let before = self.emitted(events.drop_last());
            match self.run(events.drop_last()).emits(events.last()) {
                Some(sample) => before.push(sample),
                None => before,
            }
        }
    }
}

/// The polling state machine of one sensor session.
pub struct Poller {
    state: PollState,
    pressure: u16,
    failures: u8,
    fault: Option<Error>,
}

impl View for Poller {
    type V = Session;

    closed spec fn view(&self) -> Session {
        Session {
            state: self.state,
            pressure: self.pressure,
            failures: self.failures as nat,
            fault: self.fault,
        }
    }
}

impl Poller {
    #[verifier::type_invariant]
    spec fn well_formed(self) -> bool {
        self@.wf()
    }

    /// Creates the machine of a session that will configure the sensor with
    /// the given ambient pressure in millibar.
    pub fn new(pressure: u16) -> (poller: Poller)
        ensures
            poller@ == Session::initial(pressure),
            poller@.wf(),
    {
        Poller { state: PollState::Idle, pressure, failures: 0, fault: None }
    }

    /// Returns where the session stands.
    pub fn state(&self) -> (state: PollState)
        ensures
            state == self@.state,
    {
        self.state
    }

    /// Returns the ambient pressure of the session.
    pub fn pressure(&self) -> (pressure: u16)
        ensures
            pressure == self@.pressure,
    {
        self.pressure
    }

    /// Returns the length of the current run of consecutive checksum failures.
    pub fn failures(&self) -> (failures: u8)
        ensures
            failures == self@.failures,
            failures < MAX_CONSECUTIVE_FAILURES,
    {
        proof {
            use_type_invariant(self);
        }
        self.failures
    }

    /// Returns the error that ended the session, if it has ended.
    pub fn fault(&self) -> (fault: Option<Error>)
        ensures
            fault == self@.fault,
            fault is Some <==> self@.state == PollState::Faulted,
    {
        proof {
            use_type_invariant(self);
        }
        self.fault
    }

    /// Returns the driver call that the session waits for.
    pub fn pending(&self) -> (action: Action)
        ensures
            action == self@.pending(),
    {
        proof {
            use_type_invariant(self);
        }
        match self.state {
            PollState::Idle => Action::Standby,
            PollState::Configuring => Action::Configure(self.pressure),
            PollState::AwaitingFirstSample => Action::PollReady,
            PollState::Streaming => Action::ReadSample,
            PollState::Faulted => match self.fault {
                Some(error) => Action::Halt(error),
                None => Action::Standby,
            },
        }
    }

    /// Starts the session.
    pub fn start(&mut self) -> (step: Step)
        ensures
            final(self)@ == old(self)@.next(Event::Start),
            final(self)@.wf(),
            step.emitted is None,
            step.action == final(self)@.pending(),
    {
        self.step(Event::Start)
    }

    /// Takes the bytes that the sensor answered to the pending action with,
    /// decodes them and steps on the result. No response answers `Standby`
    /// or `Halt`, so there the bytes are dropped and nothing changes.
    pub fn receive(&mut self, response: &[u8]) -> (step: Step)
        ensures
            final(self)@ == match old(self)@.pending().reply(response@) {
                Some(event) => old(self)@.next(event),
                None => old(self)@,
            },
            final(self)@.wf(),
            step.emitted == match old(self)@.pending().reply(response@) {
                Some(event) => old(self)@.emits(event),
                None => None,
            },
            step.action == final(self)@.pending(),
    {
        proof {
            use_type_invariant(&*self);
        }
        match self.pending().interpret(response) {
            Some(event) => self.step(event),
            None => Step { action: self.pending(), emitted: None },
        }
    }

    /// Reports that the bus transaction for the pending action failed.
    pub fn transport_failed(&mut self) -> (step: Step)
        ensures
            final(self)@ == old(self)@.next(Event::Failed(Error::TransportError)),
            final(self)@.state == PollState::Faulted,
            final(self)@.wf(),
            step.emitted is None,
            step.action == final(self)@.pending(),
    {
        self.step(Event::Failed(Error::TransportError))
    }

    /// Takes a sequence of events, one after the other, and returns the
    /// measurements they send downstream, in order.
    pub fn feed(&mut self, events: &[Event]) -> (emitted: Vec<SensorData>)
        ensures
            final(self)@ == old(self)@.run(events@),
            final(self)@.wf(),
            emitted@ == old(self)@.emitted(events@),
    {
        proof {
            use_type_invariant(&*self);
        }
        let ghost start = self@;
        let mut emitted: Vec<SensorData> = Vec::new();
        let mut i: usize = 0;
        while i < events.len()
            invariant
                i <= events@.len(),
                self@ == start.run(events@.take(i as int)),
                self@.wf(),
                emitted@ == start.emitted(events@.take(i as int)),
            decreases events@.len() - i,
        {
            proof {
                assert(events@.take(i + 1).drop_last() =~= events@.take(i as int));
                assert(events@.take(i + 1).last() == events@[i as int]);
            }
            let step = self.step(events[i]);
            match step.emitted {
                Some(sample) => {
                    emitted.push(sample);
                },
                None => {},
            }
            i += 1;
        }
        proof {
            assert(events@.take(events@.len() as int) =~= events@);
        }
        emitted
    }

    /// Takes one event and answers with the next action.
    pub fn step(&mut self, event: Event) -> (step: Step)
        ensures
            final(self)@ == old(self)@.next(event),
            final(self)@.wf(),
            step.emitted == old(self)@.emits(event),
            step.action == final(self)@.pending(),
    {
        proof {
            use_type_invariant(&*self);
            lemma_wf_is_invariant(self.pressure, self@, event);
        }
        let state = self.state;
        let pressure: u16 = self.pressure;
        let failures: u8 = self.failures;
        let fault = self.fault;
        let polling = match state {
            PollState::AwaitingFirstSample => true,
            PollState::Streaming => true,
            _ => false,
        };
        let mut emitted: Option<SensorData> = None;
        match state {
            PollState::Faulted => {},
            _ => match event {
                Event::Failed(error) => {
                    let mismatch = match error {
                        Error::ChecksumMismatch => true,
                        _ => false,
                    };
                    if polling && mismatch && failures + 1 < MAX_CONSECUTIVE_FAILURES {
                        *self = Poller { state, pressure, failures: failures + 1, fault };
                    } else {
                        *self = Poller {
                            state: PollState::Faulted,
                            pressure,
                            failures: 0,
                            fault: Some(error),
                        };
                    }
                },
                Event::Start => match state {
                    PollState::Idle => {
                        *self = Poller { state: PollState::Configuring, pressure, failures, fault };
                    },
                    _ => {},
                },
                Event::Configured => match state {
                    PollState::Configuring => {
                        *self = Poller {
                            state: PollState::AwaitingFirstSample,
                            pressure,
                            failures,
                            fault,
                        };
                    },
                    _ => {},
                },
                Event::Ready(ready) => match state {
                    PollState::AwaitingFirstSample => {
                        let next = if ready {
                            PollState::Streaming
                        } else {
                            PollState::AwaitingFirstSample
                        };
                        *self = Poller { state: next, pressure, failures: 0, fault };
                    },
                    _ => {},
                },
                Event::Sample(sample) => match state {
                    PollState::Streaming => {
                        *self = Poller { state, pressure, failures: 0, fault };
                        emitted = Some(sample);
                    },
                    _ => {},
                },
            },
        }
        Step { action: self.pending(), emitted }
    }
}

/// `n` times the answer "not ready".
pub open spec fn not_ready(n: nat) -> Seq<Event> {
    Seq::new(n, |i: int| Event::Ready(false))
}

/// The events that deliver the given samples, one after the other.
pub open spec fn samples_read(samples: Seq<SensorData>) -> Seq<Event> {
    Seq::new(samples.len(), |i: int| Event::Sample(samples[i]))
}

/// A new session is well formed, and no event breaks that.
pub proof fn lemma_wf_is_invariant(pressure: u16, session: Session, event: Event)
    ensures
        Session::initial(pressure).wf(),
        session.wf() ==> session.next(event).wf(),
{
}

/// A session only moves forward through its lifecycle, and keeps the pressure
/// it was created with.
pub proof fn lemma_moves_forward(session: Session, event: Event)
    ensures
        session.next(event).state.rank() >= session.state.rank(),
        session.next(event).pressure == session.pressure,
{
}

/// A session that has ended stays as it is, emits nothing and keeps reporting
/// the error that ended it.
pub proof fn lemma_faulted_is_terminal(session: Session, event: Event)
    requires
        session.state == PollState::Faulted,
    ensures
        session.next(event) == session,
        session.emits(event) is None,
        session.next(event).pending() == Action::Halt(session.fault.unwrap()),
{
}

/// A transport error, or a response of the wrong length, ends a session in
/// every state, and the session reports that very error.
pub proof fn lemma_fatal_errors_end_the_session(session: Session, error: Error)
    requires
        session.state != PollState::Faulted,
        error != Error::ChecksumMismatch,
    ensures
        session.next(Event::Failed(error)).state == PollState::Faulted,
        session.next(Event::Failed(error)).pending() == Action::Halt(error),
{
}

/// While configuring, every failure ends the session.
pub proof fn lemma_failed_configuration_ends_the_session(session: Session, error: Error)
    requires
        session.state == PollState::Configuring,
    ensures
        session.next(Event::Failed(error)).state == PollState::Faulted,
        session.next(Event::Failed(error)).pending() == Action::Halt(error),
{
}

/// Over any sequence of events a well-formed session stays well formed and
/// never moves backwards.
pub proof fn lemma_run_moves_forward(session: Session, events: Seq<Event>)
    ensures
        session.run(events).state.rank() >= session.state.rank(),
        session.run(events).pressure == session.pressure,
        session.wf() ==> session.run(events).wf(),
    decreases events.len(),
{
    if events.len() > 0 {
        lemma_run_moves_forward(session, events.drop_last());
    }
}

/// A session that awaits its first sample keeps polling for as long as the
/// answer is "not ready", however often that is.
pub proof fn lemma_keeps_waiting(session: Session, n: nat)
    requires
        session.state == PollState::AwaitingFirstSample,
    ensures
        session.run(not_ready(n)).state == PollState::AwaitingFirstSample,
        session.run(not_ready(n)).pending() == Action::PollReady,
    decreases n,
{
    if n > 0 {
        lemma_keeps_waiting(session, (n - 1) as nat);
        assert(not_ready(n).drop_last() =~= not_ready((n - 1) as nat));
    }
}

/// When the sensor answers "not ready" `n` times and then "ready", a session
/// that awaits its first sample asks for exactly `n` further polls and then
/// for the first measurement, by which time it is streaming.
pub proof fn lemma_polls_until_ready(session: Session, n: nat)
    requires
        session.state == PollState::AwaitingFirstSample,
    ensures
        session.actions(not_ready(n).push(Event::Ready(true))) == Seq::new(
            n,
            |i: int| Action::PollReady,
        ).push(Action::ReadSample),
        session.run(not_ready(n).push(Event::Ready(true))).state == PollState::Streaming,
        session.emitted(not_ready(n).push(Event::Ready(true))) == Seq::<SensorData>::empty(),
{
    let events = not_ready(n).push(Event::Ready(true));
    let expected = Seq::new(n, |i: int| Action::PollReady).push(Action::ReadSample);
    lemma_keeps_waiting(session, n);
    assert(events.drop_last() =~= not_ready(n));
    assert(events.take(n as int + 1) =~= events);
    assert forall|i: int| 0 <= i < n + 1 implies session.actions(events)[i] == expected[i] by {
        if i < n {
            assert(events.take(i + 1) =~= not_ready((i + 1) as nat));
            lemma_keeps_waiting(session, (i + 1) as nat);
        }
    }
    assert(session.actions(events) =~= expected);
    lemma_nothing_emitted_while_waiting(session, n);
}

/// No measurement goes downstream while the session awaits its first sample.
pub proof fn lemma_nothing_emitted_while_waiting(session: Session, n: nat)
    requires
        session.state == PollState::AwaitingFirstSample,
    ensures
        session.emitted(not_ready(n)) == Seq::<SensorData>::empty(),
        session.emitted(not_ready(n).push(Event::Ready(true))) == Seq::<SensorData>::empty(),
    decreases n,
{
    if n > 0 {
        lemma_nothing_emitted_while_waiting(session, (n - 1) as nat);
        assert(not_ready(n).drop_last() =~= not_ready((n - 1) as nat));
    }
    assert(not_ready(n).push(Event::Ready(true)).drop_last() =~= not_ready(n));
}

/// One checksum mismatch costs exactly the sample it spoiled: a streaming
/// session that meets a mismatch and then reads any number of good samples
/// passes on every one of them, in order, and is still streaming.
pub proof fn lemma_mismatch_costs_one_sample(session: Session, samples: Seq<SensorData>)
    requires
        session.state == PollState::Streaming,
        session.failures + 1 < MAX_CONSECUTIVE_FAILURES,
    ensures
        session.emitted(seq![Event::Failed(Error::ChecksumMismatch)] + samples_read(samples))
            == samples,
        session.run(
            seq![Event::Failed(Error::ChecksumMismatch)] + samples_read(samples),
        ).state == PollState::Streaming,
    decreases samples.len(),
{
    let mismatch = seq![Event::Failed(Error::ChecksumMismatch)];
    let events = mismatch + samples_read(samples);
    if samples.len() == 0 {
        assert(events =~= mismatch);
        assert(events.drop_last() =~= Seq::<Event>::empty());
        assert(session.run(events.drop_last()) == session);
        assert(session.emitted(events.drop_last()) =~= Seq::<SensorData>::empty());
        assert(events.last() == Event::Failed(Error::ChecksumMismatch));
        assert(session.emitted(events) =~= samples);
    } else {
        let earlier = samples.drop_last();
        lemma_mismatch_costs_one_sample(session, earlier);
        assert(events.drop_last() =~= mismatch + samples_read(earlier));
        assert(events.last() == Event::Sample(samples.last()));
        assert(earlier.push(samples.last()) =~= samples);
    }
}

/// A run of checksum mismatches ends a streaming session exactly when it
/// reaches `MAX_CONSECUTIVE_FAILURES`, and the session then reports a checksum
/// mismatch.
pub proof fn lemma_repeated_mismatch_escalates(session: Session)
    requires
        session.state == PollState::Streaming,
        session.failures == 0,
    ensures
        ({
            let mismatch = Event::Failed(Error::ChecksumMismatch);
            let once = session.next(mismatch);
            let twice = once.next(mismatch);
            let thrice = twice.next(mismatch);
            &&& once.state == PollState::Streaming
            &&& twice.state == PollState::Streaming
            &&& thrice.state == PollState::Faulted
            &&& thrice.pending() == Action::Halt(Error::ChecksumMismatch)
        }),
{
}

} // verus!
