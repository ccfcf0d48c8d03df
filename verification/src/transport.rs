//! The exchange with the device: which control transfers carry a report,
//! and in which order writes, pauses and reads follow each other.
//!
//! Nothing here touches the device. A `Batch` says what to do next; the
//! caller does it and reports what happened.

use vstd::prelude::*;
use crate::common::{HID_REQ_GET_REPORT, HID_REQ_SET_REPORT, RAZER_REPORT_SIZE};
use crate::error::{DriverError, ProtocolDecodeFailure};
use crate::message::RazerMessage;

verus! {

/// The type of a control request.
#[derive(Clone, Copy, Debug, PartialEq, Eq, Structural)]
pub enum ControlType {
    Standard,
    Class,
    Vendor,
}

/// The recipient of a control request.
#[derive(Clone, Copy, Debug, PartialEq, Eq, Structural)]
pub enum Recipient {
    Device,
    Interface,
    Endpoint,
    Other,
}

/// A control transfer that carries a report to the device.
#[derive(Clone, Copy, Debug, PartialEq, Eq)]
pub struct ControlOut {
    pub control_type: ControlType,
    pub recipient: Recipient,
    pub request: u8,
    pub value: u16,
    pub index: u16,
    pub data: [u8; 90],
}

/// A control transfer that reads a report from the device.
#[derive(Clone, Copy, Debug, PartialEq, Eq, Structural)]
pub struct ControlIn {
    pub control_type: ControlType,
    pub recipient: Recipient,
    pub request: u8,
    pub value: u16,
    pub index: u16,
    pub length: u16,
}

/// The transfer that writes a report: a class request to the interface,
/// SET_REPORT with value 0x0300 and index 0, the report as payload.
pub fn usb_out_message(data: [u8; 90]) -> (out: ControlOut)
    ensures
        out == (ControlOut {
            control_type: ControlType::Class,
            recipient: Recipient::Interface,
            request: HID_REQ_SET_REPORT,
            value: 0x300,
            index: 0x00,
            data,
        }),
{
    ControlOut {
        control_type: ControlType::Class,
        recipient: Recipient::Interface,
        request: HID_REQ_SET_REPORT,
        value: 0x300,
        index: 0x00,
        data,
    }
}

/// The transfer that reads a report: a class request to the interface,
/// GET_REPORT with value 0x0300 and index 0, for the size of a report.
pub fn usb_in_message() -> (request: ControlIn)
    ensures
        request == (ControlIn {
            control_type: ControlType::Class,
            recipient: Recipient::Interface,
            request: HID_REQ_GET_REPORT,
            value: 0x300,
            index: 0x00,
            length: 90,
        }),
        request.length == RAZER_REPORT_SIZE,
{
    ControlIn {
        control_type: ControlType::Class,
        recipient: Recipient::Interface,
        request: HID_REQ_GET_REPORT,
        value: 0x300,
        index: 0x00,
        length: 90,
    }
}

/// What the caller is asked to do next.
#[derive(Clone, Copy, Debug, PartialEq, Eq)]
pub enum Action {
    /// Let this many milliseconds pass.
    Wait(u64),
    /// Write the report to the device.
    Write(RazerMessage),
    /// Read a report from the device.
    Read,
}

/// What the caller reports back.
#[derive(Clone, Copy, Debug, PartialEq, Eq)]
pub enum Event {
    /// The pause is over.
    Waited,
    /// The report was written.
    Written,
    /// A report was read.
    Received(RazerMessage),
    /// Something was read that does not have the size of a report.
    Malformed,
    /// The transfer failed.
    Failed,
}

/// One step of a batch, as it was planned.
#[derive(Clone, Copy, Debug, PartialEq, Eq)]
pub enum Planned {
    /// The step was refused before any transfer, for this reason.
    Refused(DriverError),
    /// Write the report; no answer is read.
    Command(RazerMessage),
    /// Write the report, pause, read the answer.
    Query(RazerMessage),
}

/// How one step of a batch ended.
#[derive(Clone, Copy, Debug, PartialEq, Eq)]
pub enum Outcome {
    /// The command was written.
    Written,
    /// The query was answered with this report.
    Response(RazerMessage),
    /// The step failed.
    Failed(DriverError),
}

/// Whether a batch goes on.
#[derive(Clone, Copy, Debug, PartialEq, Eq)]
pub enum Progress {
    /// The caller performs the action and reports the event.
    Next(Action),
    /// The batch is over.
    Finished,
}

/// Where a batch stands.
#[derive(Clone, Copy, Debug, PartialEq, Eq, Structural)]
pub enum Phase {
    /// The pause before the first step is running.
    Settling,
    /// The report of the current step is being written.
    Writing,
    /// The pause between the write and the read is running.
    Pausing,
    /// The answer to the current step is being read.
    Reading,
    /// Nothing is left to do.
    Finished,
}

impl Event {
    /// The event for what a read returned.
    pub open spec fn of_read(bytes: Seq<u8>, event: Event) -> bool {
        if bytes.len() == 90 {
            event matches Event::Received(message) && message.wire() == bytes
        } else {
            event == Event::Malformed
        }
    }

    /// Turns what a read returned into an event: a report if it has the
    /// size of one.
    pub fn from_read(bytes: &[u8]) -> (event: Event)
        ensures
            Event::of_read(bytes@, event),
    {
        match RazerMessage::decode(bytes) {
            Ok(message) => Event::Received(message),
            Err(_) => Event::Malformed,
        }
    }
}

impl Planned {
    /// Plans a step from the request that a profile made for it.
    pub fn new(request: Result<RazerMessage, DriverError>, expects_response: bool) -> (step:
        Planned)
        ensures
            step == Planned::plan(request, expects_response),
    {
        match request {
            Err(e) => Planned::Refused(e),
            Ok(message) => if expects_response {
                Planned::Query(message)
            } else {
                Planned::Command(message)
            },
        }
    }

    /// The step for a request: refused where the request was, else a query
    /// or a command.
    pub open spec fn plan(request: Result<RazerMessage, DriverError>, expects_response: bool)
        -> Planned {
        match request {
            Err(e) => Planned::Refused(e),
            Ok(message) => if expects_response {
                Planned::Query(message)
            } else {
                Planned::Command(message)
            },
        }
    }
}

/// A batch as a value: its plan, its pauses, its policy, and how far it got.
pub struct BatchView {
    /// The steps, in the order in which they run.
    pub steps: Seq<Planned>,
    /// The length of every pause, in milliseconds.
    pub wait: u64,
    /// True if the first failure ends the batch.
    pub stop_on_failure: bool,
    /// The outcomes of the steps that are over, in order.
    pub outcomes: Seq<Outcome>,
    /// Where the current step stands.
    pub phase: Phase,
}

impl BatchView {
    /// True if the last step that ended has failed.
    pub open spec fn failed(self) -> bool {
        self.outcomes.len() > 0 && self.outcomes.last() is Failed
    }

    /// The batch with the current step over.
    pub open spec fn record(self, outcome: Outcome) -> BatchView {
        BatchView { outcomes: self.outcomes.push(outcome), ..self }
    }

    /// Moves to the next step that needs a transfer. Steps that were refused
    /// end at once, with their reason and without a transfer. The batch is
    /// over after the last step, or after a failure if the first failure
    /// ends it.
    pub open spec fn dispatch(self) -> (BatchView, Progress)
        decreases self.steps.len() - self.outcomes.len(),
    {
        if self.outcomes.len() >= self.steps.len() || (self.stop_on_failure && self.failed()) {
            (BatchView { phase: Phase::Finished, ..self }, Progress::Finished)
        } else {
            match self.steps[self.outcomes.len() as int] {
                Planned::Refused(e) => self.record(Outcome::Failed(e)).dispatch(),
                Planned::Command(message) => (
                    BatchView { phase: Phase::Writing, ..self },
                    Progress::Next(Action::Write(message)),
                ),
                Planned::Query(message) => (
                    BatchView { phase: Phase::Writing, ..self },
                    Progress::Next(Action::Write(message)),
                ),
            }
        }
    }

    /// Ends the current step with a transport failure and moves on.
    pub open spec fn fail_current(self) -> (BatchView, Progress) {
        if self.outcomes.len() < self.steps.len() {
            self.record(Outcome::Failed(DriverError::Transport)).dispatch()
        } else {
            (BatchView { phase: Phase::Finished, ..self }, Progress::Finished)
        }
    }

    /// A batch that has not begun.
    pub open spec fn fresh(steps: Seq<Planned>, wait: u64, stop_on_failure: bool) -> BatchView {
        BatchView {
            steps,
            wait,
            stop_on_failure,
            outcomes: Seq::empty(),
            phase: Phase::Settling,
        }
    }

    /// The first move: the pause before the first step if one is asked for,
    /// else the first step.
    pub open spec fn begin(self, settle_first: bool) -> (BatchView, Progress) {
        if settle_first {
            (self, Progress::Next(Action::Wait(self.wait)))
        } else {
            self.dispatch()
        }
    }

    /// The move after an event.
    ///
    /// While a report is written, `Written` lets a query pause and a command
    /// end. After the pause the answer is read. What is read ends the query:
    /// a report is its answer, anything else its failure. An event that does
    /// not answer the pending action, `Failed` among them, ends the current
    /// step as a transport failure.
    pub open spec fn advance(self, event: Event) -> (BatchView, Progress) {
        match self.phase {
            Phase::Finished => (self, Progress::Finished),
            Phase::Settling => if event is Waited {
                self.dispatch()
            } else {
                self.fail_current()
            },
            Phase::Writing => if event is Written && self.outcomes.len() < self.steps.len() {
                if self.steps[self.outcomes.len() as int] is Query {
                    (
                        BatchView { phase: Phase::Pausing, ..self },
                        Progress::Next(Action::Wait(self.wait)),
                    )
                } else {
                    self.record(Outcome::Written).dispatch()
                }
            } else {
                self.fail_current()
            },
            Phase::Pausing => if event is Waited {
                (BatchView { phase: Phase::Reading, ..self }, Progress::Next(Action::Read))
            } else {
                self.fail_current()
            },
            Phase::Reading => if self.outcomes.len() < self.steps.len() {
                match event {
                    Event::Received(message) => self.record(Outcome::Response(message)).dispatch(),
                    Event::Malformed => self.record(
                        Outcome::Failed(DriverError::Decode(ProtocolDecodeFailure::ResponseSize)),
                    ).dispatch(),
                    _ => self.fail_current(),
                }
            } else {
                self.fail_current()
            },
        }
    }

    /// True if two batches have the same steps, pauses and policy.
    pub open spec fn same_plan(self, other: BatchView) -> bool {
        &&& self.steps == other.steps
        &&& self.wait == other.wait
        &&& self.stop_on_failure == other.stop_on_failure
    }

    /// True of every batch that runs: no more outcomes than steps.
    pub open spec fn wf(self) -> bool {
        self.outcomes.len() <= self.steps.len()
    }
}

/// A sequence of operations on one device, run one transfer at a time.
pub struct Batch {
    steps: Vec<Planned>,
    wait: u64,
    stop_on_failure: bool,
    outcomes: Vec<Outcome>,
    phase: Phase,
}

impl View for Batch {
    type V = BatchView;

    closed spec fn view(&self) -> BatchView {
        BatchView {
            steps: self.steps@,
            wait: self.wait,
            stop_on_failure: self.stop_on_failure,
            outcomes: self.outcomes@,
            phase: self.phase,
        }
    }
}

impl Batch {
    /// Starts a batch and says what to do first.
    ///
    /// `wait` is the length of every pause in milliseconds. With
    /// `settle_first` the batch begins with a pause. With `stop_on_failure`
    /// the first step that fails is the last one.
    pub fn start(steps: Vec<Planned>, wait: u64, settle_first: bool, stop_on_failure: bool) -> (r:
        (Batch, Progress))
        ensures
            (r.0@, r.1) == BatchView::fresh(steps@, wait, stop_on_failure).begin(settle_first),
            r.0@.steps == steps@,
            r.0@.wait == wait,
            r.0@.stop_on_failure == stop_on_failure,
    {
        let mut batch = Batch {
            steps,
            wait,
            stop_on_failure,
            outcomes: Vec::new(),
            phase: Phase::Settling,
        };
        assert(batch@ == BatchView::fresh(steps@, wait, stop_on_failure));
        if settle_first {
            (batch, Progress::Next(Action::Wait(wait)))
        } else {
            let progress = batch.dispatch();
            (batch, progress)
        }
    }

    fn dispatch(&mut self) -> (progress: Progress)
        ensures
            (final(self)@, progress) == old(self)@.dispatch(),
            final(self)@.same_plan(old(self)@),
    {
        loop
            invariant
                self@.dispatch() == old(self)@.dispatch(),
                self@.same_plan(old(self)@),
            decreases self.steps@.len() - self.outcomes@.len(),
        {
            let position = self.outcomes.len();
            let failed = position > 0 && match self.outcomes[position - 1] {
                Outcome::Failed(_) => true,
                _ => false,
            };
            if position >= self.steps.len() || (self.stop_on_failure && failed) {
                self.phase = Phase::Finished;
                return Progress::Finished;
            }
            match self.steps[position] {
                Planned::Refused(e) => {
                    self.outcomes.push(Outcome::Failed(e));
                },
                Planned::Command(message) => {
                    self.phase = Phase::Writing;
                    return Progress::Next(Action::Write(message));
                },
                Planned::Query(message) => {
                    self.phase = Phase::Writing;
                    return Progress::Next(Action::Write(message));
                },
            }
        }
    }

    fn fail_current(&mut self) -> (progress: Progress)
        ensures
            (final(self)@, progress) == old(self)@.fail_current(),
            final(self)@.same_plan(old(self)@),
    {
        if self.outcomes.len() < self.steps.len() {
            self.outcomes.push(Outcome::Failed(DriverError::Transport));
            self.dispatch()
        } else {
            self.phase = Phase::Finished;
            Progress::Finished
        }
    }

    fn record(&mut self, outcome: Outcome) -> (progress: Progress)
        requires
            old(self)@.outcomes.len() < old(self)@.steps.len(),
        ensures
            (final(self)@, progress) == old(self)@.record(outcome).dispatch(),
            final(self)@.same_plan(old(self)@),
    {
        self.outcomes.push(outcome);
        self.dispatch()
    }

    /// Takes what happened and says what to do next. The plan, the pauses
    /// and the policy of the batch stay as they are.
    pub fn advance(&mut self, event: Event) -> (progress: Progress)
        ensures
            (final(self)@, progress) == old(self)@.advance(event),
            final(self)@.same_plan(old(self)@),
    {
        let position = self.outcomes.len();
        match self.phase {
            Phase::Finished => Progress::Finished,
            Phase::Settling => match event {
                Event::Waited => self.dispatch(),
                _ => self.fail_current(),
            },
            Phase::Writing => match event {
                Event::Written => {
                    if position < self.steps.len() {
                        match self.steps[position] {
                            Planned::Query(_) => {
                                self.phase = Phase::Pausing;
                                Progress::Next(Action::Wait(self.wait))
                            },
                            _ => self.record(Outcome::Written),
                        }
                    } else {
                        self.fail_current()
                    }
                },
                _ => self.fail_current(),
            },
            Phase::Pausing => match event {
                Event::Waited => {
                    self.phase = Phase::Reading;
                    Progress::Next(Action::Read)
                },
                _ => self.fail_current(),
            },
            Phase::Reading => {
                if position < self.steps.len() {
                    match event {
                        Event::Received(message) => self.record(Outcome::Response(message)),
                        Event::Malformed => self.record(
                            Outcome::Failed(
                                DriverError::Decode(ProtocolDecodeFailure::ResponseSize),
                            ),
                        ),
                        _ => self.fail_current(),
                    }
                } else {
                    self.fail_current()
                }
            },
        }
    }

    /// True once nothing is left to do.
    pub fn is_finished(&self) -> (r: bool)
        ensures
            r == (self@.phase == Phase::Finished),
    {
        match self.phase {
            Phase::Finished => true,
            _ => false,
        }
    }

    /// The outcomes of the steps that are over, in the order of the steps.
    pub fn outcomes(&self) -> (list: &Vec<Outcome>)
        ensures
            list@ == self@.outcomes,
    {
        &self.outcomes
    }
}

/// What a read gives, when the device is asked.
pub enum ReadAnswer {
    /// The transfer fails.
    Failed,
    /// Something arrives that does not have the size of a report.
    Malformed,
    /// This report arrives.
    Report(RazerMessage),
}

/// How the device deals with one step of a batch.
pub struct Answer {
    /// True if the write of the step succeeds.
    pub write_ok: bool,
    /// What the read of the step gives.
    pub read: ReadAnswer,
}

/// The event that a caller reports for an action, with a device that
/// answers the current step in the given way.
pub open spec fn event_for(action: Action, answer: Answer) -> Event {
    match action {
        Action::Wait(_) => Event::Waited,
        Action::Write(_) => if answer.write_ok {
            Event::Written
        } else {
            Event::Failed
        },
        Action::Read => match answer.read {
            ReadAnswer::Failed => Event::Failed,
            ReadAnswer::Malformed => Event::Malformed,
            ReadAnswer::Report(message) => Event::Received(message),
        },
    }
}

/// How a step ends with a device that answers it in the given way. A step
/// that was refused ends with its reason whatever the device would do.
pub open spec fn expected(step: Planned, answer: Answer) -> Outcome {
    match step {
        Planned::Refused(e) => Outcome::Failed(e),
        Planned::Command(_) => if answer.write_ok {
            Outcome::Written
        } else {
            Outcome::Failed(DriverError::Transport)
        },
        Planned::Query(_) => if !answer.write_ok {
            Outcome::Failed(DriverError::Transport)
        } else {
            match answer.read {
                ReadAnswer::Failed => Outcome::Failed(DriverError::Transport),
                ReadAnswer::Malformed => Outcome::Failed(
                    DriverError::Decode(ProtocolDecodeFailure::ResponseSize),
                ),
                ReadAnswer::Report(message) => Outcome::Response(message),
            }
        },
    }
}

/// The outcomes of a batch of which `done` are known: each further step
/// ends as `expected` says, up to the last step, or up to a failure if the
/// first failure ends the batch.
pub open spec fn complete(
    steps: Seq<Planned>,
    answers: Seq<Answer>,
    stop_on_failure: bool,
    done: Seq<Outcome>,
) -> Seq<Outcome>
    decreases steps.len() - done.len(),
{
    if done.len() >= steps.len() || (stop_on_failure && done.len() > 0 && done.last()
        is Failed) {
        done
    } else {
        let k = done.len() as int;
        complete(steps, answers, stop_on_failure, done.push(expected(steps[k], answers[k])))
    }
}

/// The outcomes of a whole batch with a device that answers step `i` as
/// `answers[i]` says.
pub open spec fn expected_outcomes(
    steps: Seq<Planned>,
    answers: Seq<Answer>,
    stop_on_failure: bool,
) -> Seq<Outcome> {
    complete(steps, answers, stop_on_failure, Seq::empty())
}

/// The batch after the caller has performed up to `fuel` actions, each
/// answered by the device as `answers` says for the current step.
pub open spec fn run(batch: BatchView, progress: Progress, answers: Seq<Answer>, fuel: nat)
    -> BatchView
    decreases fuel,
{
    match progress {
        Progress::Finished => batch,
        Progress::Next(action) => if fuel == 0 {
            batch
        } else {
            let event = event_for(action, answers[batch.outcomes.len() as int]);
            let next = batch.advance(event);
            run(next.0, next.1, answers, (fuel - 1) as nat)
        },
    }
}

/// From any point between two steps, three actions per step that is left
/// are enough to finish, and the outcomes are the expected ones.
proof fn lemma_run_from_dispatch(batch: BatchView, answers: Seq<Answer>, fuel: nat)
    requires
        batch.wf(),
        answers.len() == batch.steps.len(),
        fuel >= 3 * (batch.steps.len() - batch.outcomes.len()),
    ensures
        ({
            let next = batch.dispatch();
            let end = run(next.0, next.1, answers, fuel);
            &&& end.phase == Phase::Finished
            &&& end.outcomes == complete(
                batch.steps,
                answers,
                batch.stop_on_failure,
                batch.outcomes,
            )
            &&& end.steps == batch.steps
        }),
    decreases batch.steps.len() - batch.outcomes.len(),
{
    let k = batch.outcomes.len() as int;
    let next = batch.dispatch();
    if k >= batch.steps.len() || (batch.stop_on_failure && batch.failed()) {
    } else {
        let answer = answers[k];
        let outcome = expected(batch.steps[k], answer);
        let after = batch.record(outcome);
        assert(after.outcomes.len() == k + 1);
        lemma_run_from_dispatch(after, answers, (fuel - 3) as nat);
        lemma_run_from_dispatch(after, answers, (fuel - 2) as nat);
        lemma_run_from_dispatch(after, answers, (fuel - 1) as nat);
        lemma_run_from_dispatch(after, answers, fuel);
        match batch.steps[k] {
            Planned::Refused(e) => {
                assert(next == after.dispatch());
            },
            Planned::Command(message) => {
                let writing = BatchView { phase: Phase::Writing, ..batch };
                assert(next == (writing, Progress::Next(Action::Write(message))));
                let event = event_for(Action::Write(message), answer);
                let moved = writing.advance(event);
                assert(writing.record(outcome).dispatch() == after.dispatch()) by {
                    lemma_dispatch_ignores_phase(writing.record(outcome), after);
                }
                assert(moved == after.dispatch());
                assert(run(next.0, next.1, answers, fuel) == run(
                    moved.0,
                    moved.1,
                    answers,
                    (fuel - 1) as nat,
                ));
            },
            Planned::Query(message) => {
                let writing = BatchView { phase: Phase::Writing, ..batch };
                let pausing = BatchView { phase: Phase::Pausing, ..batch };
                let reading = BatchView { phase: Phase::Reading, ..batch };
                assert(next == (writing, Progress::Next(Action::Write(message))));
                let first = writing.advance(event_for(Action::Write(message), answer));
                assert(run(next.0, next.1, answers, fuel) == run(
                    first.0,
                    first.1,
                    answers,
                    (fuel - 1) as nat,
                ));
                if !answer.write_ok {
                    lemma_dispatch_ignores_phase(writing.record(outcome), after);
                    assert(first == after.dispatch());
                } else {
                    assert(first == (pausing, Progress::Next(Action::Wait(batch.wait))));
                    let second = pausing.advance(event_for(Action::Wait(batch.wait), answer));
                    assert(second == (reading, Progress::Next(Action::Read)));
                    assert(run(first.0, first.1, answers, (fuel - 1) as nat) == run(
                        second.0,
                        second.1,
                        answers,
                        (fuel - 2) as nat,
                    ));
                    let third = reading.advance(event_for(Action::Read, answer));
                    lemma_dispatch_ignores_phase(reading.record(outcome), after);
                    assert(third == after.dispatch());
                    assert(run(second.0, second.1, answers, (fuel - 2) as nat) == run(
                        third.0,
                        third.1,
                        answers,
                        (fuel - 3) as nat,
                    ));
                }
            },
        }
    }
}

/// Moving on does not depend on the phase that the batch was in.
proof fn lemma_dispatch_ignores_phase(a: BatchView, b: BatchView)
    requires
        a.steps == b.steps,
        a.wait == b.wait,
        a.stop_on_failure == b.stop_on_failure,
        a.outcomes == b.outcomes,
    ensures
        a.dispatch() == b.dispatch(),
    decreases a.steps.len() - a.outcomes.len(),
{
    let k = a.outcomes.len() as int;
    if k >= a.steps.len() || (a.stop_on_failure && a.failed()) {
    } else {
        match a.steps[k] {
            Planned::Refused(e) => {
                lemma_dispatch_ignores_phase(
                    a.record(Outcome::Failed(e)),
                    b.record(Outcome::Failed(e)),
                );
            },
            _ => {},
        }
    }
}

/// A batch whose caller performs every action, with any device, comes to
/// an end within three actions per step and one more for the first pause.
/// Its outcomes are then exactly the expected ones: one per step in the
/// order of the steps, up to the last step, or up to the first failure if
/// that ends the batch.
pub proof fn lemma_batch_runs_to_expected(
    steps: Seq<Planned>,
    wait: u64,
    settle_first: bool,
    stop_on_failure: bool,
    answers: Seq<Answer>,
)
    requires
        answers.len() == steps.len(),
    ensures
        ({
            let start = BatchView::fresh(steps, wait, stop_on_failure).begin(settle_first);
            let end = run(start.0, start.1, answers, 3 * steps.len() + 1);
            &&& end.phase == Phase::Finished
            &&& end.outcomes == expected_outcomes(steps, answers, stop_on_failure)
        }),
{
    let fresh = BatchView::fresh(steps, wait, stop_on_failure);
    let start = fresh.begin(settle_first);
    lemma_run_from_dispatch(fresh, answers, 3 * steps.len());
    lemma_run_from_dispatch(fresh, answers, 3 * steps.len() + 1);
    if settle_first {
        let event = event_for(Action::Wait(wait), answers[0]);
        let moved = fresh.advance(event);
        assert(moved == fresh.dispatch());
        assert(run(start.0, start.1, answers, 3 * steps.len() + 1) == run(
            moved.0,
            moved.1,
            answers,
            (3 * steps.len()) as nat,
        ));
    }
}

/// A batch whose first step was refused, and that ends at the first
/// failure, asks for no transfer at all: it is over as it starts.
pub proof fn lemma_refused_step_issues_no_transfer(
    steps: Seq<Planned>,
    wait: u64,
    error: DriverError,
)
    requires
        steps.len() > 0,
        steps[0] == Planned::Refused(error),
    ensures
        ({
            let start = BatchView::fresh(steps, wait, true).begin(false);
            &&& start.1 == Progress::Finished
            &&& start.0.outcomes == seq![Outcome::Failed(error)]
        }),
{
    let fresh = BatchView::fresh(steps, wait, true);
    let after = fresh.record(Outcome::Failed(error));
    assert(after.outcomes.last() == Outcome::Failed(error));
    assert(fresh.dispatch() == after.dispatch());
    assert(after.outcomes =~= seq![Outcome::Failed(error)]);
}

/// Without the stop at the first failure every step has its outcome, and
/// each outcome is the expected one of its step.
pub proof fn lemma_every_step_has_outcome(steps: Seq<Planned>, answers: Seq<Answer>)
    requires
        answers.len() == steps.len(),
    ensures
        expected_outcomes(steps, answers, false).len() == steps.len(),
        forall|i: int|
            0 <= i < steps.len() ==> #[trigger] expected_outcomes(steps, answers, false)[i]
                == expected(steps[i], answers[i]),
{
    lemma_complete_keeps_going(steps, answers, Seq::empty());
}

proof fn lemma_complete_keeps_going(steps: Seq<Planned>, answers: Seq<Answer>, done: Seq<Outcome>)
    requires
        done.len() <= steps.len(),
        forall|i: int| 0 <= i < done.len() ==> #[trigger] done[i] == expected(steps[i], answers[i]),
    ensures
        complete(steps, answers, false, done).len() == steps.len(),
        forall|i: int|
            0 <= i < steps.len() ==> #[trigger] complete(steps, answers, false, done)[i]
                == expected(steps[i], answers[i]),
    decreases steps.len() - done.len(),
{
    if done.len() < steps.len() {
        let k = done.len() as int;
        lemma_complete_keeps_going(steps, answers, done.push(expected(steps[k], answers[k])));
    }
}

/// With the stop at the first failure the outcomes are the expected ones of
/// the first steps, none but the last of them is a failure, and steps are
/// left out only after a failure.
pub proof fn lemma_first_failure_is_last(steps: Seq<Planned>, answers: Seq<Answer>)
    requires
        answers.len() == steps.len(),
    ensures
        ({
            let outcomes = expected_outcomes(steps, answers, true);
            &&& outcomes.len() <= steps.len()
            &&& forall|i: int|
                0 <= i < outcomes.len() ==> #[trigger] outcomes[i] == expected(
                    steps[i],
                    answers[i],
                )
            &&& forall|i: int| 0 <= i < outcomes.len() - 1 ==> !(#[trigger] outcomes[i] is Failed)
            &&& outcomes.len() < steps.len() ==> outcomes.len() > 0 && outcomes.last() is Failed
        }),
{
    lemma_complete_stops(steps, answers, Seq::empty());
}

proof fn lemma_complete_stops(steps: Seq<Planned>, answers: Seq<Answer>, done: Seq<Outcome>)
    requires
        done.len() <= steps.len(),
        forall|i: int| 0 <= i < done.len() ==> #[trigger] done[i] == expected(steps[i], answers[i]),
        forall|i: int| 0 <= i < done.len() - 1 ==> !(#[trigger] done[i] is Failed),
    ensures
        ({
            let outcomes = complete(steps, answers, true, done);
            &&& outcomes.len() <= steps.len()
            &&& forall|i: int|
                0 <= i < outcomes.len() ==> #[trigger] outcomes[i] == expected(
                    steps[i],
                    answers[i],
                )
            &&& forall|i: int| 0 <= i < outcomes.len() - 1 ==> !(#[trigger] outcomes[i] is Failed)
            &&& outcomes.len() < steps.len() ==> outcomes.len() > 0 && outcomes.last() is Failed
        }),
    decreases steps.len() - done.len(),
{
    if done.len() >= steps.len() || (done.len() > 0 && done.last() is Failed) {
    } else {
        let k = done.len() as int;
        lemma_complete_stops(steps, answers, done.push(expected(steps[k], answers[k])));
    }
}

} // verus!
