//! The responses: what the argument area of an answer means, for each query.

use vstd::prelude::*;
use crate::commands::{dpi_arguments, stage_chunk, stage_chunks, stage_table_arguments};
use crate::common::{
    be_value, clamp_dpi, clamp_stages, lemma_be_value_of_bytes, stage_table_ok, stages_in_range,
    Dpi, DpiStages, NormalPollingRate, VarStoreId, DPI_MAX, DPI_MIN,
};
use crate::error::{DriverError, ProtocolDecodeFailure};
use crate::message::{padded, RazerMessage};

verus! {

/// The charge of the battery, as the device reports it: a fraction of 255.
#[derive(Clone, Copy, Debug, PartialEq, Eq, Structural)]
pub struct BatteryLevel {
    pub raw: u8,
}

impl BatteryLevel {
    /// The whole percents of the charge: `raw / 255 * 100`, rounded down.
    pub open spec fn percent_spec(self) -> u8 {
        (self.raw * 100 / 255) as u8
    }

    /// The whole percents of the charge, from 0 to 100.
    pub fn percent(self) -> (p: u8)
        ensures
            p == self.percent_spec(),
            p <= 100,
            p == 100 <==> self.raw == 255,
            p == 0 <==> self.raw < 3,
    {
        let scaled: u16 = self.raw as u16 * 100;
        (scaled / 255) as u8
    }
}

/// The resolution in the arguments of a response: x at offsets 1 and 2, y at
/// 3 and 4, each most significant byte first.
pub open spec fn dpi_of_arguments(args: Seq<u8>) -> Dpi {
    Dpi { x: be_value(args[1], args[2]), y: be_value(args[3], args[4]) }
}

/// The stage whose chunk starts at offset `3 + 7 * index`.
pub open spec fn stage_of_arguments(args: Seq<u8>, index: int) -> (u16, u16) {
    let at = 3 + 7 * index;
    (be_value(args[at + 1], args[at + 2]), be_value(args[at + 3], args[at + 4]))
}

/// The active stage (offset 1) and the stages (their number at offset 2) in
/// the arguments of a response; `None` where those two bytes break the
/// bounds of a stage table.
pub open spec fn stage_table_of_arguments(args: Seq<u8>) -> Option<(u8, Seq<(u16, u16)>)> {
    let active = args[1];
    let count = args[2];
    if 1 <= count <= 5 && 1 <= active <= count {
        Some((active, Seq::new(count as nat, |i: int| stage_of_arguments(args, i))))
    } else {
        None
    }
}

/// Reads the resolution from the response to `get_dpi`.
pub fn decode_dpi(response: &RazerMessage) -> (dpi: Dpi)
    ensures
        dpi == dpi_of_arguments(response.arguments@),
{
    let args = response.arguments();
    Dpi {
        x: crate::common::decode_u16_from_bytes(&[args[1], args[2]]),
        y: crate::common::decode_u16_from_bytes(&[args[3], args[4]]),
    }
}

/// Reads the stage table from the response to `get_dpi_stages`. A response
/// whose count or active stage is out of bounds is refused.
pub fn decode_dpi_stages(response: &RazerMessage) -> (r: Result<DpiStages, DriverError>)
    ensures
        r is Ok <==> stage_table_of_arguments(response.arguments@) is Some,
        r matches Ok(table) ==> stage_table_of_arguments(response.arguments@) == Some(
            (table.active_spec(), table.stages_spec()),
        ),
        r matches Err(e) ==> e == DriverError::Decode(ProtocolDecodeFailure::StageTable),
{
    let args = response.arguments();
    let active_stage = args[1];
    let num_stages = args[2] as usize;
    if num_stages < 1 || num_stages > 5 || active_stage < 1 || active_stage as usize
        > num_stages {
        return Err(DriverError::Decode(ProtocolDecodeFailure::StageTable));
    }
    let mut stages: Vec<(u16, u16)> = Vec::new();
    let mut i: usize = 0;
    while i < num_stages
        invariant
            i <= num_stages <= 5,
            stages@.len() == i,
            forall|k: int| 0 <= k < i ==> stages@[k] == stage_of_arguments(args@, k),
        decreases num_stages - i,
    {
        let at: usize = 3 + 7 * i;
        let dpi_x = crate::common::decode_u16_from_bytes(&[args[at + 1], args[at + 2]]);
        let dpi_y = crate::common::decode_u16_from_bytes(&[args[at + 3], args[at + 4]]);
        stages.push((dpi_x, dpi_y));
        i += 1;
    }
    assert(stages@ =~= Seq::new(num_stages as nat, |i: int| stage_of_arguments(args@, i)));
    match DpiStages::new(active_stage, stages) {
        Ok(table) => Ok(table),
        Err(_) => Err(DriverError::Decode(ProtocolDecodeFailure::StageTable)),
    }
}

/// Reads the polling rate from the response to `get_polling_rate`: the byte
/// at offset 0 names it.
pub fn decode_polling_rate(response: &RazerMessage) -> (r: Result<NormalPollingRate, DriverError>)
    ensures
        r is Ok <==> NormalPollingRate::of_code(response.arguments@[0]) is Some,
        r matches Ok(rate) ==> NormalPollingRate::of_code(response.arguments@[0]) == Some(rate),
        r matches Err(e) ==> e == DriverError::Decode(ProtocolDecodeFailure::PollingRate),
{
    match NormalPollingRate::from_code(response.arguments()[0]) {
        Some(rate) => Ok(rate),
        None => Err(DriverError::Decode(ProtocolDecodeFailure::PollingRate)),
    }
}

/// Reads the battery level from the response to `get_battery_level`: the
/// byte at offset 1.
pub fn decode_battery_level(response: &RazerMessage) -> (level: BatteryLevel)
    ensures
        level.raw == response.arguments@[1],
{
    BatteryLevel { raw: response.arguments()[1] }
}

/// Reads the charging flag from the response to `get_charging_status`: the
/// byte at offset 1 is not zero.
pub fn decode_charging_status(response: &RazerMessage) -> (charging: bool)
    ensures
        charging == (response.arguments@[1] > 0),
{
    response.arguments()[1] > 0
}

/// What is transmitted for a resolution lies in `DPI_MIN..=DPI_MAX`, and
/// limiting it a second time changes nothing.
pub proof fn lemma_clamp_dpi_idempotent(value: u16)
    ensures
        DPI_MIN <= clamp_dpi(value) <= DPI_MAX,
        clamp_dpi(clamp_dpi(value)) == clamp_dpi(value),
        DPI_MIN <= value <= DPI_MAX ==> clamp_dpi(value) == value,
{
}

/// A device that answers with the arguments it was sent gives back the
/// limited resolution: decoding what `set_dpi` encodes yields exactly the
/// limited value, and encoding that again yields the same arguments.
pub proof fn lemma_dpi_round_trip(var_store: VarStoreId, dpi: Dpi)
    ensures
        dpi_of_arguments(padded(dpi_arguments(var_store, dpi.clamped_spec())))
            == dpi.clamped_spec(),
        dpi.clamped_spec().clamped_spec() == dpi.clamped_spec(),
        dpi_arguments(var_store, dpi.clamped_spec().clamped_spec()) == dpi_arguments(
            var_store,
            dpi.clamped_spec(),
        ),
{
    let sent = dpi.clamped_spec();
    lemma_be_value_of_bytes(sent.x);
    lemma_be_value_of_bytes(sent.y);
}

/// Decoding what `set_dpi_stages` encodes yields the table as the device
/// received it: the same active stage and the limited stages in the same
/// order. A table whose stages all lie in `DPI_MIN..=DPI_MAX` comes back
/// exactly, and limiting a second time changes nothing.
pub proof fn lemma_stage_table_round_trip(
    var_store: VarStoreId,
    active: u8,
    stages: Seq<(u16, u16)>,
)
    requires
        stage_table_ok(active, stages),
    ensures
        stage_table_of_arguments(padded(stage_table_arguments(var_store, active, stages)))
            == Some((active, clamp_stages(stages))),
        stages_in_range(stages) ==> stage_table_of_arguments(
            padded(stage_table_arguments(var_store, active, stages)),
        ) == Some((active, stages)),
        stages_in_range(clamp_stages(stages)),
        clamp_stages(clamp_stages(stages)) == clamp_stages(stages),
        stage_table_arguments(var_store, active, clamp_stages(stages)) == stage_table_arguments(
            var_store,
            active,
            stages,
        ),
{
    let prefix = stage_table_arguments(var_store, active, stages);
    let args = padded(prefix);
    let chunks = stage_chunks(stages);
    let sent = clamp_stages(stages);
    assert(prefix.len() == 3 + 7 * stages.len());
    assert(args[1] == active);
    assert(args[2] == stages.len());
    let decoded = Seq::new(stages.len(), |i: int| stage_of_arguments(args, i));
    assert forall|i: int| 0 <= i < stages.len() implies decoded[i] == sent[i] by {
        let at = 3 + 7 * i;
        assert forall|j: int| 0 <= j < 7 implies args[at + j] == stage_chunk(i, stages[i])[j] by {
            let k = 7 * i + j;
            assert(k / 7 == i && k % 7 == j);
            assert(args[at + j] == prefix[at + j]);
            assert(prefix[at + j] == chunks[k]);
        }
        assert(args[at + 1] == stage_chunk(i, stages[i])[1]);
        assert(args[at + 2] == stage_chunk(i, stages[i])[2]);
        assert(args[at + 3] == stage_chunk(i, stages[i])[3]);
        assert(args[at + 4] == stage_chunk(i, stages[i])[4]);
        lemma_be_value_of_bytes(clamp_dpi(stages[i].0));
        lemma_be_value_of_bytes(clamp_dpi(stages[i].1));
    }
    assert(decoded =~= sent);
    if stages_in_range(stages) {
        assert(sent =~= stages);
    }
    assert(clamp_stages(sent) =~= sent);
    assert(stage_chunks(sent) =~= stage_chunks(stages)) by {
        assert forall|k: int| 0 <= k < 7 * stages.len() implies stage_chunks(sent)[k]
            == stage_chunks(stages)[k] by {
            let i = k / 7;
            assert(0 <= i < stages.len());
            assert(stage_chunk(i, sent[i]) =~= stage_chunk(i, stages[i]));
        }
    }
}

} // verus!
