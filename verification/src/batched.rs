//! Several operations as one: the snapshot of a device, and the bulk change
//! of its settings.
//!
//! Both begin with a pause, since the firmware answers with stale or zeroed
//! data when it is asked too soon after the previous command. The snapshot
//! asks every query and leaves out what fails; the change stops at the first
//! failure and leaves the earlier writes in place.

use vstd::prelude::*;
use crate::common::{Dpi, DpiStages, NormalPollingRate, PollingRate};
use crate::devices::{Command, DeviceProfile, Operation};
use crate::error::DriverError;
use crate::message::RazerMessage;
use crate::responses::{
    decode_battery_level, decode_charging_status, decode_dpi, decode_dpi_stages,
    decode_polling_rate, dpi_of_arguments, stage_table_of_arguments, BatteryLevel,
};
use crate::transport::{
    expected, expected_outcomes, lemma_every_step_has_outcome, lemma_first_failure_is_last, Answer,
    Batch, BatchView, Outcome, Planned, Progress,
};

verus! {

/// What a device reports of itself. Each field is absent where the device
/// lacks the operation or the query failed.
#[derive(Clone, Debug, PartialEq)]
pub struct DeviceInfo {
    pub dpi: Option<Dpi>,
    pub dpi_range: Option<(u16, u16)>,
    pub dpi_stages: Option<DpiStages>,
    pub polling_rate: Option<PollingRate>,
    pub battery_level: Option<BatteryLevel>,
    pub charging_status: Option<bool>,
}

/// The settings to change. An absent field is left as it is.
#[derive(Clone, Debug, PartialEq)]
pub struct DeviceSettings {
    pub dpi: Option<Dpi>,
    pub dpi_stages: Option<DpiStages>,
    pub polling_rate: Option<PollingRate>,
}

/// A stage table as a value: the active stage and the stages.
pub open spec fn stage_table_view(table: Option<DpiStages>) -> Option<(u8, Seq<(u16, u16)>)> {
    match table {
        Some(t) => Some((t.active_spec(), t.stages_spec())),
        None => None,
    }
}

/// A snapshot as a value.
pub struct DeviceInfoView {
    pub dpi: Option<Dpi>,
    pub dpi_range: Option<(u16, u16)>,
    pub dpi_stages: Option<(u8, Seq<(u16, u16)>)>,
    pub polling_rate: Option<PollingRate>,
    pub battery_level: Option<BatteryLevel>,
    pub charging_status: Option<bool>,
}

/// The settings to change, as a value.
pub struct DeviceSettingsView {
    pub dpi: Option<Dpi>,
    pub dpi_stages: Option<(u8, Seq<(u16, u16)>)>,
    pub polling_rate: Option<PollingRate>,
}

impl View for DeviceInfo {
    type V = DeviceInfoView;

    open spec fn view(&self) -> DeviceInfoView {
        DeviceInfoView {
            dpi: self.dpi,
            dpi_range: self.dpi_range,
            dpi_stages: stage_table_view(self.dpi_stages),
            polling_rate: self.polling_rate,
            battery_level: self.battery_level,
            charging_status: self.charging_status,
        }
    }
}

impl View for DeviceSettings {
    type V = DeviceSettingsView;

    open spec fn view(&self) -> DeviceSettingsView {
        DeviceSettingsView {
            dpi: self.dpi,
            dpi_stages: stage_table_view(self.dpi_stages),
            polling_rate: self.polling_rate,
        }
    }
}

impl Default for DeviceInfo {
    /// A snapshot with every field absent.
    fn default() -> (info: DeviceInfo)
        ensures
            info@ == (DeviceInfoView {
                dpi: None,
                dpi_range: None,
                dpi_stages: None,
                polling_rate: None,
                battery_level: None,
                charging_status: None,
            }),
    {
        DeviceInfo {
            dpi: None,
            dpi_range: None,
            dpi_stages: None,
            polling_rate: None,
            battery_level: None,
            charging_status: None,
        }
    }
}

impl Default for DeviceSettings {
    /// No change at all.
    fn default() -> (settings: DeviceSettings)
        ensures
            settings@ == (DeviceSettingsView { dpi: None, dpi_stages: None, polling_rate: None }),
    {
        DeviceSettings { dpi: None, dpi_stages: None, polling_rate: None }
    }
}

/// The queries of a snapshot, in the order in which they are asked.
pub open spec fn snapshot_commands() -> Seq<Command> {
    seq![
        Command::GetDpi,
        Command::GetDpiStages,
        Command::GetPollingRate,
        Command::GetBatteryLevel,
        Command::GetChargingStatus,
    ]
}

/// The changes that the settings ask for, in the order in which they are
/// applied: resolution, stage table, polling rate.
pub open spec fn apply_commands(settings: DeviceSettingsView) -> Seq<Command> {
    let dpi = match settings.dpi {
        Some(dpi) => seq![Command::SetDpi(dpi)],
        None => Seq::empty(),
    };
    let stages = match settings.dpi_stages {
        Some((active, stages)) => seq![Command::SetDpiStages(active, stages)],
        None => Seq::empty(),
    };
    let rate = match settings.polling_rate {
        Some(rate) => seq![Command::SetPollingRate(rate)],
        None => Seq::empty(),
    };
    dpi + stages + rate
}

/// The report that answered step `i`, if the step was answered.
pub open spec fn response_at(outcomes: Seq<Outcome>, i: int) -> Option<RazerMessage> {
    if 0 <= i < outcomes.len() {
        match outcomes[i] {
            Outcome::Response(message) => Some(message),
            _ => None,
        }
    } else {
        None
    }
}

/// The snapshot that the outcomes of the five queries give: each field is
/// what its answer holds, and absent where there is no answer or the answer
/// cannot be read. The range of the resolution is the one of the profile.
pub open spec fn snapshot_view(profile: DeviceProfile, outcomes: Seq<Outcome>) -> DeviceInfoView {
    DeviceInfoView {
        dpi: match response_at(outcomes, 0) {
            Some(message) => Some(dpi_of_arguments(message.arguments@)),
            None => None,
        },
        dpi_range: profile.dpi_range,
        dpi_stages: match response_at(outcomes, 1) {
            Some(message) => stage_table_of_arguments(message.arguments@),
            None => None,
        },
        polling_rate: match response_at(outcomes, 2) {
            Some(message) => match NormalPollingRate::of_code(message.arguments@[0]) {
                Some(rate) => Some(PollingRate::Normal(rate)),
                None => None,
            },
            None => None,
        },
        battery_level: match response_at(outcomes, 3) {
            Some(message) => Some(BatteryLevel { raw: message.arguments@[1] }),
            None => None,
        },
        charging_status: match response_at(outcomes, 4) {
            Some(message) => Some(message.arguments@[1] > 0),
            None => None,
        },
    }
}

/// The result of a bulk change: the first failure among the outcomes.
pub open spec fn apply_result(outcomes: Seq<Outcome>) -> Result<(), DriverError>
    decreases outcomes.len(),
{
    if outcomes.len() == 0 {
        Ok(())
    } else {
        match outcomes[0] {
            Outcome::Failed(e) => Err(e),
            _ => apply_result(outcomes.drop_first()),
        }
    }
}

fn response_of(outcomes: &Vec<Outcome>, i: usize) -> (r: Option<RazerMessage>)
    ensures
        r == response_at(outcomes@, i as int),
{
    if i < outcomes.len() {
        match outcomes[i] {
            Outcome::Response(message) => Some(message),
            _ => None,
        }
    } else {
        None
    }
}

/// Starts a snapshot of the device: a pause of `wait` milliseconds, then
/// the five queries in order. Queries that the device lacks are refused in
/// the plan and cost no transfer. No failure ends the batch.
pub fn get_batched(profile: &DeviceProfile, wait: u64) -> (r: (Batch, Progress))
    ensures
        profile.is_plan(snapshot_commands(), r.0@.steps),
        (r.0@, r.1) == BatchView::fresh(r.0@.steps, wait, false).begin(true),
{
    let mut steps: Vec<Planned> = Vec::new();
    steps.push(Planned::new(profile.get_dpi_request(), true));
    steps.push(Planned::new(profile.get_dpi_stages_request(), true));
    steps.push(Planned::new(profile.get_polling_rate_request(), true));
    steps.push(Planned::new(profile.get_battery_level_request(), true));
    steps.push(Planned::new(profile.get_charging_status_request(), true));
    assert(profile.is_plan(snapshot_commands(), steps@));
    Batch::start(steps, wait, true, false)
}

impl DeviceInfo {
    /// Reads the snapshot from the outcomes of a batch that `get_batched`
    /// started.
    pub fn from_outcomes(profile: &DeviceProfile, outcomes: &Vec<Outcome>) -> (info: DeviceInfo)
        ensures
            info@ == snapshot_view(*profile, outcomes@),
    {
        let dpi = match response_of(outcomes, 0) {
            Some(message) => Some(decode_dpi(&message)),
            None => None,
        };
        let dpi_stages = match response_of(outcomes, 1) {
            Some(message) => match decode_dpi_stages(&message) {
                Ok(table) => Some(table),
                Err(_) => None,
            },
            None => None,
        };
        let polling_rate = match response_of(outcomes, 2) {
            Some(message) => match decode_polling_rate(&message) {
                Ok(rate) => Some(PollingRate::Normal(rate)),
                Err(_) => None,
            },
            None => None,
        };
        let battery_level = match response_of(outcomes, 3) {
            Some(message) => Some(decode_battery_level(&message)),
            None => None,
        };
        let charging_status = match response_of(outcomes, 4) {
            Some(message) => Some(decode_charging_status(&message)),
            None => None,
        };
        DeviceInfo {
            dpi,
            dpi_range: profile.dpi_range,
            dpi_stages,
            polling_rate,
            battery_level,
            charging_status,
        }
    }
}

/// Starts a bulk change: a pause of `wait` milliseconds, then one write for
/// each setting that is present, in the order resolution, stage table,
/// polling rate. The first step that fails, refused ones among them, ends
/// the batch; what was written before stays written.
pub fn set_batched(profile: &DeviceProfile, settings: &DeviceSettings, wait: u64) -> (r: (
    Batch,
    Progress,
))
    ensures
        profile.is_plan(apply_commands(settings@), r.0@.steps),
        (r.0@, r.1) == BatchView::fresh(r.0@.steps, wait, true).begin(true),
{
    let mut steps: Vec<Planned> = Vec::new();
    let ghost mut commands: Seq<Command> = Seq::empty();
    match settings.dpi {
        Some(dpi) => {
            steps.push(Planned::new(profile.set_dpi_request(dpi), false));
            proof {
                commands = commands.push(Command::SetDpi(dpi));
            }
        },
        None => {},
    }
    assert(profile.is_plan(commands, steps@));
    match &settings.dpi_stages {
        Some(dpi_stages) => {
            steps.push(Planned::new(profile.set_dpi_stages_request(dpi_stages), false));
            proof {
                commands = commands.push(
                    Command::SetDpiStages(dpi_stages.active_spec(), dpi_stages.stages_spec()),
                );
            }
        },
        None => {},
    }
    assert(profile.is_plan(commands, steps@));
    match settings.polling_rate {
        Some(polling_rate) => {
            steps.push(Planned::new(profile.set_polling_rate_request(polling_rate), false));
            proof {
                commands = commands.push(Command::SetPollingRate(polling_rate));
            }
        },
        None => {},
    }
    assert(profile.is_plan(commands, steps@));
    assert(commands =~= apply_commands(settings@));
    Batch::start(steps, wait, true, true)
}

/// Reads the result of a bulk change from the outcomes of its batch: the
/// first failure, or success where nothing failed.
pub fn set_batched_result(outcomes: &Vec<Outcome>) -> (r: Result<(), DriverError>)
    ensures
        r == apply_result(outcomes@),
{
    let mut i: usize = 0;
    assert(outcomes@.subrange(0, outcomes@.len() as int) =~= outcomes@);
    while i < outcomes.len()
        invariant
            i <= outcomes@.len(),
            apply_result(outcomes@) == apply_result(
                outcomes@.subrange(i as int, outcomes@.len() as int),
            ),
        decreases outcomes@.len() - i,
    {
        let rest = Ghost(outcomes@.subrange(i as int, outcomes@.len() as int));
        assert(rest@.drop_first() =~= outcomes@.subrange(i + 1, outcomes@.len() as int));
        assert(rest@[0] == outcomes@[i as int]);
        match outcomes[i] {
            Outcome::Failed(e) => {
                return Err(e);
            },
            _ => {},
        }
        i += 1;
    }
    Ok(())
}

/// True if the device answers the step with a report.
pub open spec fn answered(answer: Answer) -> bool {
    answer.write_ok && answer.read is Report
}

/// A snapshot never fails as a whole, and one missing operation costs one
/// field only.
///
/// With any device and any profile, the batch of a snapshot has one outcome
/// for each of the five queries. A field is absent where the device lacks
/// the query. Resolution, battery level and charging flag are present
/// wherever the device has the query and answers it; stage table and
/// polling rate wherever the answer can also be read. The range of the
/// resolution is always the one of the profile.
pub proof fn lemma_snapshot_degrades_by_field(
    profile: DeviceProfile,
    steps: Seq<Planned>,
    answers: Seq<Answer>,
)
    requires
        profile.is_plan(snapshot_commands(), steps),
        answers.len() == steps.len(),
    ensures
        ({
            let outcomes = expected_outcomes(steps, answers, false);
            let info = snapshot_view(profile, outcomes);
            &&& outcomes.len() == 5
            &&& info.dpi_range == profile.dpi_range
            &&& !profile.supports_spec(Operation::GetDpi) ==> info.dpi is None
            &&& !profile.supports_spec(Operation::GetDpiStages) ==> info.dpi_stages is None
            &&& !profile.supports_spec(Operation::GetPollingRate) ==> info.polling_rate is None
            &&& !profile.supports_spec(Operation::GetBatteryLevel) ==> info.battery_level is None
            &&& !profile.supports_spec(Operation::GetChargingStatus) ==> info.charging_status
                is None
            &&& profile.supports_spec(Operation::GetDpi) && answered(answers[0]) ==> info.dpi
                == Some(dpi_of_arguments(answers[0].read->Report_0.arguments@))
            &&& profile.supports_spec(Operation::GetDpiStages) && answered(answers[1])
                ==> info.dpi_stages == stage_table_of_arguments(
                answers[1].read->Report_0.arguments@,
            )
            &&& profile.supports_spec(Operation::GetPollingRate) && answered(answers[2]) ==> (
            info.polling_rate is Some <==> NormalPollingRate::of_code(
                answers[2].read->Report_0.arguments@[0],
            ) is Some)
            &&& profile.supports_spec(Operation::GetBatteryLevel) && answered(answers[3])
                ==> info.battery_level == Some(
                BatteryLevel { raw: answers[3].read->Report_0.arguments@[1] },
            )
            &&& profile.supports_spec(Operation::GetChargingStatus) && answered(answers[4])
                ==> info.charging_status == Some(answers[4].read->Report_0.arguments@[1] > 0)
        }),
{
    lemma_every_step_has_outcome(steps, answers);
    let outcomes = expected_outcomes(steps, answers, false);
    let commands = snapshot_commands();
    assert(profile.is_step(commands[0], steps[0]));
    assert(profile.is_step(commands[1], steps[1]));
    assert(profile.is_step(commands[2], steps[2]));
    assert(profile.is_step(commands[3], steps[3]));
    assert(profile.is_step(commands[4], steps[4]));
    assert(outcomes[0] == expected(steps[0], answers[0]));
    assert(outcomes[1] == expected(steps[1], answers[1]));
    assert(outcomes[2] == expected(steps[2], answers[2]));
    assert(outcomes[3] == expected(steps[3], answers[3]));
    assert(outcomes[4] == expected(steps[4], answers[4]));
}

/// A bulk change applies its writes in order and stops at the first
/// failure.
///
/// The result is the failure of the first step that fails, and no later
/// step has an outcome: it was not attempted. Where no step fails every
/// step was written and the result is success.
pub proof fn lemma_apply_stops_at_first_failure(steps: Seq<Planned>, answers: Seq<Answer>)
    requires
        answers.len() == steps.len(),
    ensures
        ({
            let outcomes = expected_outcomes(steps, answers, true);
            &&& apply_result(outcomes) is Ok <==> forall|i: int|
                0 <= i < steps.len() ==> !(#[trigger] expected(steps[i], answers[i]) is Failed)
            &&& apply_result(outcomes) is Ok ==> outcomes.len() == steps.len()
            &&& apply_result(outcomes) matches Err(e) ==> outcomes.len() > 0 && outcomes.last()
                == Outcome::Failed(e) && expected(
                steps[outcomes.len() - 1],
                answers[outcomes.len() - 1],
            ) == Outcome::Failed(e)
        }),
{
    lemma_first_failure_is_last(steps, answers);
    let outcomes = expected_outcomes(steps, answers, true);
    lemma_apply_result_scan(outcomes);
    if apply_result(outcomes) is Ok {
        assert forall|i: int| 0 <= i < steps.len() implies !(#[trigger] expected(
            steps[i],
            answers[i],
        ) is Failed) by {
            assert(outcomes[i] == expected(steps[i], answers[i]));
        }
    } else {
        let last = outcomes.len() - 1;
        assert(outcomes[last] == expected(steps[last], answers[last]));
    }
}

/// The result of a bulk change is a failure exactly if one of the outcomes
/// is, and then it is the first of them.
proof fn lemma_apply_result_scan(outcomes: Seq<Outcome>)
    ensures
        apply_result(outcomes) is Ok <==> forall|i: int|
            0 <= i < outcomes.len() ==> !(#[trigger] outcomes[i] is Failed),
        apply_result(outcomes) matches Err(e) ==> exists|i: int|
            0 <= i < outcomes.len() && #[trigger] outcomes[i] == Outcome::Failed(e) && forall|
                j: int,
            |
                0 <= j < i ==> !(#[trigger] outcomes[j] is Failed),
    decreases outcomes.len(),
{
    if outcomes.len() > 0 {
        let rest = outcomes.drop_first();
        lemma_apply_result_scan(rest);
        match outcomes[0] {
            Outcome::Failed(e) => {
                assert(outcomes[0] == Outcome::Failed(e));
            },
            _ => {
                assert forall|i: int| 0 <= i < rest.len() implies rest[i] == outcomes[i + 1] by {}
                if apply_result(rest) is Ok {
                    assert forall|i: int| 0 <= i < outcomes.len() implies !(
                    #[trigger] outcomes[i] is Failed) by {
                        if i > 0 {
                            assert(rest[i - 1] == outcomes[i]);
                        }
                    }
                } else {
                    let e = apply_result(rest)->Err_0;
                    let i = choose|i: int|
                        0 <= i < rest.len() && #[trigger] rest[i] == Outcome::Failed(e) && forall|
                            j: int,
                        |
                            0 <= j < i ==> !(#[trigger] rest[j] is Failed);
                    assert(outcomes[i + 1] == Outcome::Failed(e));
                    assert forall|j: int| 0 <= j < i + 1 implies !(
                    #[trigger] outcomes[j] is Failed) by {
                        if j > 0 {
                            assert(rest[j - 1] == outcomes[j]);
                        }
                    }
                }
            },
        }
    }
}

} // verus!
