//! One operation at a time: how it is started, and what its answer means.
//!
//! An operation that the device's profile refuses is over as it starts and
//! costs no transfer. A write is over once it is written. A query pauses
//! after the write and then reads its answer.

use vstd::prelude::*;
use crate::chroma::ExtendedMatrixEffect;
use crate::common::{Dpi, DpiStages, NormalPollingRate, PollingRate};
use crate::devices::{Command, DeviceProfile, Operation};
use crate::error::{DriverError, ProtocolDecodeFailure};
use crate::message::RazerMessage;
use crate::responses::{
    decode_battery_level, decode_charging_status, decode_dpi, decode_dpi_stages,
    decode_polling_rate, dpi_of_arguments, stage_table_of_arguments, BatteryLevel,
};
use crate::transport::{
    complete, expected, expected_outcomes, lemma_batch_runs_to_expected, run, Answer, Batch,
    BatchView, Outcome, Phase, Planned, Progress, ReadAnswer,
};

verus! {

impl DeviceProfile {
    /// True if `step` is the step that this device's profile plans for the
    /// command: refused where the profile refuses it, else a query or a
    /// command that carries the request.
    pub open spec fn is_step(self, command: Command, step: Planned) -> bool {
        match self.refusal(command) {
            Some(e) => step == Planned::Refused(e),
            None => if command.operation().expects_response_spec() {
                step matches Planned::Query(message) && self.is_request(command, message)
            } else {
                step matches Planned::Command(message) && self.is_request(command, message)
            },
        }
    }

    /// True if `steps` is the plan of the commands, step by step.
    pub open spec fn is_plan(self, commands: Seq<Command>, steps: Seq<Planned>) -> bool {
        &&& steps.len() == commands.len()
        &&& forall|i: int| 0 <= i < commands.len() ==> self.is_step(commands[i], #[trigger] steps[i])
    }
}

/// Starts a batch of the one step.
fn start(step: Planned, wait: u64) -> (r: (Batch, Progress))
    ensures
        r.0@.steps == seq![step],
        (r.0@, r.1) == BatchView::fresh(seq![step], wait, true).begin(false),
        step matches Planned::Refused(e) ==> r.1 == Progress::Finished && r.0@.outcomes == seq![
            Outcome::Failed(e),
        ],
{
    let mut steps: Vec<Planned> = Vec::new();
    steps.push(step);
    assert(steps@ =~= seq![step]);
    proof {
        match step {
            Planned::Refused(e) => {
                crate::transport::lemma_refused_step_issues_no_transfer(steps@, wait, e);
            },
            _ => {},
        }
    }
    Batch::start(steps, wait, false, true)
}

/// True if `r` is the start of the one command on this device: a batch of
/// the one step that the profile plans for it, without a pause before it.
/// Where the profile refuses the command the batch is over as it starts,
/// with the refusal as its outcome and without any transfer.
pub open spec fn starts(
    profile: DeviceProfile,
    command: Command,
    wait: u64,
    batch: BatchView,
    progress: Progress,
) -> bool {
    &&& profile.is_plan(seq![command], batch.steps)
    &&& (batch, progress) == BatchView::fresh(batch.steps, wait, true).begin(false)
    &&& profile.refusal(command) matches Some(e) ==> progress == Progress::Finished
        && batch.outcomes == seq![Outcome::Failed(e)]
}

/// Starts the query of the resolution. `wait` is the pause between the
/// write and the read, in milliseconds, here and below.
pub fn get_dpi(profile: &DeviceProfile, wait: u64) -> (r: (Batch, Progress))
    ensures
        profile.is_plan(seq![Command::GetDpi], r.0@.steps),
        (r.0@, r.1) == BatchView::fresh(r.0@.steps, wait, true).begin(false),
        starts(*profile, Command::GetDpi, wait, r.0@, r.1),
{
    start(Planned::new(profile.get_dpi_request(), true), wait)
}

/// Starts the write of the resolution.
pub fn set_dpi(profile: &DeviceProfile, dpi: Dpi, wait: u64) -> (r: (Batch, Progress))
    ensures
        profile.is_plan(seq![Command::SetDpi(dpi)], r.0@.steps),
        (r.0@, r.1) == BatchView::fresh(r.0@.steps, wait, true).begin(false),
        starts(*profile, Command::SetDpi(dpi), wait, r.0@, r.1),
{
    start(Planned::new(profile.set_dpi_request(dpi), false), wait)
}

/// Starts the query of the stage table.
pub fn get_dpi_stages(profile: &DeviceProfile, wait: u64) -> (r: (Batch, Progress))
    ensures
        profile.is_plan(seq![Command::GetDpiStages], r.0@.steps),
        (r.0@, r.1) == BatchView::fresh(r.0@.steps, wait, true).begin(false),
        starts(*profile, Command::GetDpiStages, wait, r.0@, r.1),
{
    start(Planned::new(profile.get_dpi_stages_request(), true), wait)
}

/// Starts the write of the stage table.
pub fn set_dpi_stages(profile: &DeviceProfile, dpi_stages: &DpiStages, wait: u64) -> (r: (
    Batch,
    Progress,
))
    ensures
        profile.is_plan(
            seq![Command::SetDpiStages(dpi_stages.active_spec(), dpi_stages.stages_spec())],
            r.0@.steps,
        ),
        (r.0@, r.1) == BatchView::fresh(r.0@.steps, wait, true).begin(false),
        starts(
            *profile,
            Command::SetDpiStages(dpi_stages.active_spec(), dpi_stages.stages_spec()),
            wait,
            r.0@,
            r.1,
        ),
{
    start(Planned::new(profile.set_dpi_stages_request(dpi_stages), false), wait)
}

/// Starts the query of the polling rate.
pub fn get_polling_rate(profile: &DeviceProfile, wait: u64) -> (r: (Batch, Progress))
    ensures
        profile.is_plan(seq![Command::GetPollingRate], r.0@.steps),
        (r.0@, r.1) == BatchView::fresh(r.0@.steps, wait, true).begin(false),
        starts(*profile, Command::GetPollingRate, wait, r.0@, r.1),
{
    start(Planned::new(profile.get_polling_rate_request(), true), wait)
}

/// Starts the write of the polling rate. A rate of a kind that the device
/// does not take ends the operation before any transfer.
pub fn set_polling_rate(profile: &DeviceProfile, polling_rate: PollingRate, wait: u64) -> (r: (
    Batch,
    Progress,
))
    ensures
        profile.is_plan(seq![Command::SetPollingRate(polling_rate)], r.0@.steps),
        (r.0@, r.1) == BatchView::fresh(r.0@.steps, wait, true).begin(false),
        starts(*profile, Command::SetPollingRate(polling_rate), wait, r.0@, r.1),
{
    start(Planned::new(profile.set_polling_rate_request(polling_rate), false), wait)
}

/// Starts the query of the battery level.
pub fn get_battery_level(profile: &DeviceProfile, wait: u64) -> (r: (Batch, Progress))
    ensures
        profile.is_plan(seq![Command::GetBatteryLevel], r.0@.steps),
        (r.0@, r.1) == BatchView::fresh(r.0@.steps, wait, true).begin(false),
        starts(*profile, Command::GetBatteryLevel, wait, r.0@, r.1),
{
    start(Planned::new(profile.get_battery_level_request(), true), wait)
}

/// Starts the query of the charging flag.
pub fn get_charging_status(profile: &DeviceProfile, wait: u64) -> (r: (Batch, Progress))
    ensures
        profile.is_plan(seq![Command::GetChargingStatus], r.0@.steps),
        (r.0@, r.1) == BatchView::fresh(r.0@.steps, wait, true).begin(false),
        starts(*profile, Command::GetChargingStatus, wait, r.0@, r.1),
{
    start(Planned::new(profile.get_charging_status_request(), true), wait)
}

/// Starts the write of the effect of the logo LED.
pub fn chroma_logo_matrix_effect(
    profile: &DeviceProfile,
    effect: ExtendedMatrixEffect,
    wait: u64,
) -> (r: (Batch, Progress))
    ensures
        profile.is_plan(seq![Command::ChromaLogoMatrixEffect(effect)], r.0@.steps),
        (r.0@, r.1) == BatchView::fresh(r.0@.steps, wait, true).begin(false),
        starts(*profile, Command::ChromaLogoMatrixEffect(effect), wait, r.0@, r.1),
{
    start(Planned::new(profile.chroma_logo_matrix_effect_request(effect), false), wait)
}

/// How the one step of an operation ended. A batch without an outcome has
/// not been run to its end, which counts as a failed transfer.
pub open spec fn outcome_of(outcomes: Seq<Outcome>) -> Outcome {
    if outcomes.len() == 0 {
        Outcome::Failed(DriverError::Transport)
    } else {
        outcomes[0]
    }
}

/// The result of a write: success once it was written.
pub open spec fn written(outcome: Outcome) -> Result<(), DriverError> {
    match outcome {
        Outcome::Failed(e) => Err(e),
        _ => Ok(()),
    }
}

/// The answer to a query. A query that ended without one has failed in the
/// transfer.
pub open spec fn answer(outcome: Outcome) -> Result<RazerMessage, DriverError> {
    match outcome {
        Outcome::Response(message) => Ok(message),
        Outcome::Written => Err(DriverError::Transport),
        Outcome::Failed(e) => Err(e),
    }
}

fn first_outcome(outcomes: &Vec<Outcome>) -> (outcome: Outcome)
    ensures
        outcome == outcome_of(outcomes@),
{
    if outcomes.len() == 0 {
        Outcome::Failed(DriverError::Transport)
    } else {
        outcomes[0]
    }
}

fn first_answer(outcomes: &Vec<Outcome>) -> (r: Result<RazerMessage, DriverError>)
    ensures
        r == answer(outcome_of(outcomes@)),
{
    match first_outcome(outcomes) {
        Outcome::Response(message) => Ok(message),
        Outcome::Written => Err(DriverError::Transport),
        Outcome::Failed(e) => Err(e),
    }
}

/// The result of any of the writes: `set_dpi`, `set_dpi_stages`,
/// `set_polling_rate`, the lighting effect.
pub fn set_reply(outcomes: &Vec<Outcome>) -> (r: Result<(), DriverError>)
    ensures
        r == written(outcome_of(outcomes@)),
{
    match first_outcome(outcomes) {
        Outcome::Failed(e) => Err(e),
        _ => Ok(()),
    }
}

/// The resolution that `get_dpi` was answered with.
pub fn get_dpi_reply(outcomes: &Vec<Outcome>) -> (r: Result<Dpi, DriverError>)
    ensures
        r == match answer(outcome_of(outcomes@)) {
            Ok(message) => Ok::<Dpi, DriverError>(dpi_of_arguments(message.arguments@)),
            Err(e) => Err(e),
        },
{
    match first_answer(outcomes) {
        Ok(message) => Ok(decode_dpi(&message)),
        Err(e) => Err(e),
    }
}

/// The stage table that `get_dpi_stages` was answered with.
pub fn get_dpi_stages_reply(outcomes: &Vec<Outcome>) -> (r: Result<DpiStages, DriverError>)
    ensures
        match answer(outcome_of(outcomes@)) {
            Ok(message) => match stage_table_of_arguments(message.arguments@) {
                Some(table) => r matches Ok(t) && (t.active_spec(), t.stages_spec()) == table,
                None => r matches Err(e) && e == DriverError::Decode(
                    ProtocolDecodeFailure::StageTable,
                ),
            },
            Err(error) => r matches Err(e) && e == error,
        },
{
    match first_answer(outcomes) {
        Ok(message) => decode_dpi_stages(&message),
        Err(e) => Err(e),
    }
}

/// The polling rate that `get_polling_rate` was answered with.
pub fn get_polling_rate_reply(outcomes: &Vec<Outcome>) -> (r: Result<PollingRate, DriverError>)
    ensures
        r == match answer(outcome_of(outcomes@)) {
            Ok(message) => match NormalPollingRate::of_code(message.arguments@[0]) {
                Some(rate) => Ok::<PollingRate, DriverError>(PollingRate::Normal(rate)),
                None => Err(DriverError::Decode(ProtocolDecodeFailure::PollingRate)),
            },
            Err(e) => Err(e),
        },
{
    match first_answer(outcomes) {
        Ok(message) => match decode_polling_rate(&message) {
            Ok(rate) => Ok(PollingRate::Normal(rate)),
            Err(e) => Err(e),
        },
        Err(e) => Err(e),
    }
}

/// The battery level that `get_battery_level` was answered with.
pub fn get_battery_level_reply(outcomes: &Vec<Outcome>) -> (r: Result<BatteryLevel, DriverError>)
    ensures
        r == match answer(outcome_of(outcomes@)) {
            Ok(message) => Ok::<BatteryLevel, DriverError>(
                BatteryLevel { raw: message.arguments@[1] },
            ),
            Err(e) => Err(e),
        },
{
    match first_answer(outcomes) {
        Ok(message) => Ok(decode_battery_level(&message)),
        Err(e) => Err(e),
    }
}

/// The charging flag that `get_charging_status` was answered with.
pub fn get_charging_status_reply(outcomes: &Vec<Outcome>) -> (r: Result<bool, DriverError>)
    ensures
        r == match answer(outcome_of(outcomes@)) {
            Ok(message) => Ok::<bool, DriverError>(message.arguments@[1] > 0),
            Err(e) => Err(e),
        },
{
    match first_answer(outcomes) {
        Ok(message) => Ok(decode_charging_status(&message)),
        Err(e) => Err(e),
    }
}

/// One operation, run to its end with any device, has exactly one outcome:
/// the expected one of its step. So a refused operation fails with its
/// reason, a write succeeds if the write does, and a query yields the report
/// that the device sent.
pub proof fn lemma_operation_outcome(step: Planned, wait: u64, device: Answer)
    ensures
        ({
            let start = BatchView::fresh(seq![step], wait, true).begin(false);
            let end = run(start.0, start.1, seq![device], 4);
            &&& end.phase == Phase::Finished
            &&& end.outcomes == seq![expected(step, device)]
            &&& outcome_of(end.outcomes) == expected(step, device)
        }),
{
    let steps = seq![step];
    let answers = seq![device];
    lemma_batch_runs_to_expected(steps, wait, false, true, answers);
    let first = Seq::<Outcome>::empty().push(expected(steps[0], answers[0]));
    assert(expected_outcomes(steps, answers, true) == complete(steps, answers, true, first));
    assert(complete(steps, answers, true, first) == first);
    assert(first =~= seq![expected(step, device)]);
}

/// Setting a resolution and asking for it gives the limited resolution
/// back, with a device that answers the query with the arguments it was
/// sent: the write is one transfer, the query a write, a pause and a read,
/// and the reply is the resolution with each axis in `DPI_MIN..=DPI_MAX`.
pub proof fn lemma_set_dpi_then_get_dpi(
    profile: DeviceProfile,
    dpi: Dpi,
    wait: u64,
    set_steps: Seq<Planned>,
    get_steps: Seq<Planned>,
    answer_report: RazerMessage,
)
    requires
        profile.supports_spec(Operation::SetDpi),
        profile.supports_spec(Operation::GetDpi),
        profile.is_plan(seq![Command::SetDpi(dpi)], set_steps),
        profile.is_plan(seq![Command::GetDpi], get_steps),
        set_steps[0] matches Planned::Command(sent) && answer_report.arguments == sent.arguments,
    ensures
        ({
            let device = Answer { write_ok: true, read: ReadAnswer::Report(answer_report) };
            let set_start = BatchView::fresh(set_steps, wait, true).begin(false);
            let set_end = run(set_start.0, set_start.1, seq![device], 4);
            let get_start = BatchView::fresh(get_steps, wait, true).begin(false);
            let get_end = run(get_start.0, get_start.1, seq![device], 4);
            &&& written(outcome_of(set_end.outcomes)) == Ok::<(), DriverError>(())
            &&& answer(outcome_of(get_end.outcomes)) == Ok::<RazerMessage, DriverError>(
                answer_report,
            )
            &&& dpi_of_arguments(answer_report.arguments@) == dpi.clamped_spec()
        }),
{
    let device = Answer { write_ok: true, read: ReadAnswer::Report(answer_report) };
    assert(profile.is_step(seq![Command::SetDpi(dpi)][0], set_steps[0]));
    assert(profile.is_step(seq![Command::GetDpi][0], get_steps[0]));
    assert(set_steps =~= seq![set_steps[0]]);
    assert(get_steps =~= seq![get_steps[0]]);
    lemma_operation_outcome(set_steps[0], wait, device);
    lemma_operation_outcome(get_steps[0], wait, device);
    crate::responses::lemma_dpi_round_trip(profile.var_store, dpi);
}

} // verus!
