//! The commands: for each operation its class, id, data size and the layout
//! of its arguments.

use vstd::prelude::*;
use crate::chroma::{BreathingEffect, ExtendedMatrixEffect, LedId};
use crate::common::{
    clamp, clamp_dpi, clamp_spec, encode_u16_as_bytes, high_byte, low_byte, Dpi, DpiStages,
    ExtendedPollingRate, NormalPollingRate, VarStoreId, DPI_MAX, DPI_MIN,
};
use crate::message::{padded, RazerMessageBuilder};

verus! {

impl NormalPollingRate {
    /// The byte that names the rate on the wire.
    pub open spec fn code_spec(self) -> u8 {
        match self {
            NormalPollingRate::Rate1000 => 0x01,
            NormalPollingRate::Rate500 => 0x02,
            NormalPollingRate::Rate125 => 0x08,
        }
    }

    /// The rate that a byte of a response names, if any.
    pub open spec fn of_code(code: u8) -> Option<NormalPollingRate> {
        if code == 0x01 {
            Some(NormalPollingRate::Rate1000)
        } else if code == 0x02 {
            Some(NormalPollingRate::Rate500)
        } else if code == 0x08 {
            Some(NormalPollingRate::Rate125)
        } else {
            None
        }
    }

    /// The byte that names the rate on the wire.
    pub fn code(self) -> (c: u8)
        ensures
            c == self.code_spec(),
    {
        match self {
            NormalPollingRate::Rate1000 => 0x01,
            NormalPollingRate::Rate500 => 0x02,
            NormalPollingRate::Rate125 => 0x08,
        }
    }

    /// The rate that a byte of a response names, if any.
    pub fn from_code(code: u8) -> (r: Option<NormalPollingRate>)
        ensures
            r == NormalPollingRate::of_code(code),
    {
        if code == 0x01 {
            Some(NormalPollingRate::Rate1000)
        } else if code == 0x02 {
            Some(NormalPollingRate::Rate500)
        } else if code == 0x08 {
            Some(NormalPollingRate::Rate125)
        } else {
            None
        }
    }
}

impl ExtendedPollingRate {
    /// The bit that names the rate on the wire.
    pub open spec fn flag_spec(self) -> u8 {
        match self {
            ExtendedPollingRate::Rate8000 => 0x01,
            ExtendedPollingRate::Rate4000 => 0x02,
            ExtendedPollingRate::Rate2000 => 0x04,
            ExtendedPollingRate::Rate1000 => 0x08,
            ExtendedPollingRate::Rate500 => 0x10,
            ExtendedPollingRate::Rate250 => 0x20,
            ExtendedPollingRate::Rate125 => 0x40,
        }
    }

    /// The bit that names the rate on the wire.
    pub fn flag(self) -> (c: u8)
        ensures
            c == self.flag_spec(),
    {
        match self {
            ExtendedPollingRate::Rate8000 => 0x01,
            ExtendedPollingRate::Rate4000 => 0x02,
            ExtendedPollingRate::Rate2000 => 0x04,
            ExtendedPollingRate::Rate1000 => 0x08,
            ExtendedPollingRate::Rate500 => 0x10,
            ExtendedPollingRate::Rate250 => 0x20,
            ExtendedPollingRate::Rate125 => 0x40,
        }
    }
}

/// Every normal rate is found again by its byte.
pub proof fn lemma_normal_rate_code_round_trip(rate: NormalPollingRate)
    ensures
        NormalPollingRate::of_code(rate.code_spec()) == Some(rate),
{
}

/// A byte that names a normal rate is the byte of that rate, and the three
/// bytes 0x01, 0x02 and 0x08 are the only ones that name one.
pub proof fn lemma_normal_rate_code_unique(code: u8)
    ensures
        NormalPollingRate::of_code(code) matches Some(rate) ==> rate.code_spec() == code,
        NormalPollingRate::of_code(code) is Some <==> code == 0x01 || code == 0x02 || code
            == 0x08,
{
}

/// The arguments of a resolution command: the bank, then x and y, each most
/// significant byte first, then two zero bytes.
pub open spec fn dpi_arguments(var_store: VarStoreId, dpi: Dpi) -> Seq<u8> {
    seq![
        var_store.code_spec(),
        high_byte(dpi.x),
        low_byte(dpi.x),
        high_byte(dpi.y),
        low_byte(dpi.y),
        0,
        0,
    ]
}

/// The seven bytes of one stage: its index counted from 0, x and y, each
/// limited to `DPI_MIN..=DPI_MAX` and written most significant byte first,
/// and two zero bytes.
pub open spec fn stage_chunk(index: int, stage: (u16, u16)) -> Seq<u8> {
    seq![
        index as u8,
        high_byte(clamp_dpi(stage.0)),
        low_byte(clamp_dpi(stage.0)),
        high_byte(clamp_dpi(stage.1)),
        low_byte(clamp_dpi(stage.1)),
        0,
        0,
    ]
}

/// The chunks of all stages, one after the other.
pub open spec fn stage_chunks(stages: Seq<(u16, u16)>) -> Seq<u8> {
    Seq::new(7 * stages.len(), |i: int| stage_chunk(i / 7, stages[i / 7])[i % 7])
}

/// The arguments of a stage table: the bank, the active stage, the number
/// of stages, then the chunks.
pub open spec fn stage_table_arguments(
    var_store: VarStoreId,
    active: u8,
    stages: Seq<(u16, u16)>,
) -> Seq<u8> {
    seq![var_store.code_spec(), active, stages.len() as u8] + stage_chunks(stages)
}

/// The speed of the reactive effect as it is transmitted: from 1 to 4.
pub open spec fn clamp_speed(speed: u8) -> u8 {
    clamp_spec(speed as int, 1, 4) as u8
}

/// The arguments of a lighting effect: the bank, the LED, the effect's byte
/// and what the effect adds.
pub open spec fn effect_arguments(
    var_store: VarStoreId,
    led_id: LedId,
    effect: ExtendedMatrixEffect,
) -> Seq<u8> {
    let head = seq![var_store.code_spec(), led_id.code_spec(), effect.code_spec()];
    match effect {
        ExtendedMatrixEffect::Off => head,
        ExtendedMatrixEffect::Spectrum => head,
        ExtendedMatrixEffect::Static(color) => head + seq![
            0,
            0,
            0x01,
            color.r,
            color.g,
            color.b,
        ],
        ExtendedMatrixEffect::Breathing(BreathingEffect::Single(color)) => head + seq![
            0x01,
            0x00,
            0x01,
            color.r,
            color.g,
            color.b,
        ],
        ExtendedMatrixEffect::Breathing(BreathingEffect::Dual(first, second)) => head + seq![
            0x02,
            0x00,
            0x02,
            first.r,
            first.g,
            first.b,
            second.r,
            second.g,
            second.b,
        ],
        ExtendedMatrixEffect::Breathing(BreathingEffect::Random) => head,
        ExtendedMatrixEffect::Reactive(color, speed) => head + seq![
            0,
            clamp_speed(speed),
            0x01,
            color.r,
            color.g,
            color.b,
        ],
    }
}

/// The data size of a lighting effect.
pub open spec fn effect_data_size(effect: ExtendedMatrixEffect) -> u8 {
    match effect {
        ExtendedMatrixEffect::Off => 0x06,
        ExtendedMatrixEffect::Spectrum => 0x06,
        ExtendedMatrixEffect::Static(_) => 0x09,
        ExtendedMatrixEffect::Breathing(BreathingEffect::Single(_)) => 0x09,
        ExtendedMatrixEffect::Breathing(BreathingEffect::Dual(_, _)) => 0x0C,
        ExtendedMatrixEffect::Breathing(BreathingEffect::Random) => 0x06,
        ExtendedMatrixEffect::Reactive(_, _) => 0x09,
    }
}

impl RazerMessageBuilder {
    fn command(class: u8, id: u8, size: u8) -> (b: RazerMessageBuilder)
        ensures
            b.holds(class, id, size, Seq::empty()),
    {
        let b = RazerMessageBuilder {
            transaction_id: 0,
            data_size: size,
            command_class: class,
            command_id: id,
            arguments: [0u8; 80],
        };
        assert(b.arguments@ =~= padded(Seq::empty()));
        b
    }

    /// Asks for the battery level.
    pub fn get_battery_level() -> (b: RazerMessageBuilder)
        ensures
            b.holds(0x07, 0x80, 0x02, Seq::empty()),
    {
        RazerMessageBuilder::command(0x07, 0x80, 0x02)
    }

    /// Asks whether the device is charging.
    pub fn get_charging_status() -> (b: RazerMessageBuilder)
        ensures
            b.holds(0x07, 0x84, 0x02, Seq::empty()),
    {
        RazerMessageBuilder::command(0x07, 0x84, 0x02)
    }

    /// Asks for the resolution held in the given bank.
    pub fn get_dpi(var_store: VarStoreId) -> (b: RazerMessageBuilder)
        ensures
            b.holds(0x04, 0x85, 0x07, seq![var_store.code_spec()]),
    {
        let mut msg = RazerMessageBuilder::command(0x04, 0x85, 0x07);
        msg.arguments[0] = var_store.code();
        assert(msg.arguments@ =~= padded(seq![var_store.code_spec()]));
        msg
    }

    /// Sets the resolution, each axis limited to `DPI_MIN..=DPI_MAX`.
    pub fn set_dpi(var_store: VarStoreId, dpi: Dpi) -> (b: RazerMessageBuilder)
        ensures
            b.holds(0x04, 0x05, 0x07, dpi_arguments(var_store, dpi.clamped_spec())),
    {
        let mut msg = RazerMessageBuilder::command(0x04, 0x05, 0x07);
        let dpi_x = encode_u16_as_bytes(clamp(dpi.x, DPI_MIN, DPI_MAX));
        let dpi_y = encode_u16_as_bytes(clamp(dpi.y, DPI_MIN, DPI_MAX));

        msg.arguments[0] = var_store.code();
        msg.arguments[1] = dpi_x[0];
        msg.arguments[2] = dpi_x[1];
        msg.arguments[3] = dpi_y[0];
        msg.arguments[4] = dpi_y[1];
        msg.arguments[5] = 0x00;
        msg.arguments[6] = 0x00;
        assert(msg.arguments@ =~= padded(dpi_arguments(var_store, dpi.clamped_spec())));
        msg
    }

    /// Asks for the stage table held in the given bank.
    pub fn get_dpi_stages(var_store: VarStoreId) -> (b: RazerMessageBuilder)
        ensures
            b.holds(0x04, 0x86, 0x26, seq![var_store.code_spec()]),
    {
        let mut msg = RazerMessageBuilder::command(0x04, 0x86, 0x26);
        msg.arguments[0] = var_store.code();
        assert(msg.arguments@ =~= padded(seq![var_store.code_spec()]));
        msg
    }

    /// Sets the stage table. Each axis of each stage is limited to
    /// `DPI_MIN..=DPI_MAX`, as a single resolution is; the table itself is
    /// not changed.
    pub fn set_dpi_stages(var_store: VarStoreId, dpi_stages: &DpiStages) -> (b:
        RazerMessageBuilder)
        ensures
            b.holds(
                0x04,
                0x06,
                0x26,
                stage_table_arguments(
                    var_store,
                    dpi_stages.active_spec(),
                    dpi_stages.stages_spec(),
                ),
            ),
    {
        let mut msg = RazerMessageBuilder::command(0x04, 0x06, 0x26);
        let stages = dpi_stages.stages();
        let num_stages = stages.len();
        let ghost prefix = stage_table_arguments(
            var_store,
            dpi_stages.active_spec(),
            dpi_stages.stages_spec(),
        );

        msg.arguments[0] = var_store.code();
        msg.arguments[1] = dpi_stages.active();
        msg.arguments[2] = num_stages as u8;

        let mut i: usize = 0;
        while i < num_stages
            invariant
                i <= num_stages <= 5,
                num_stages == stages@.len(),
                stages@ == dpi_stages.stages_spec(),
                prefix == stage_table_arguments(
                    var_store,
                    dpi_stages.active_spec(),
                    dpi_stages.stages_spec(),
                ),
                msg.transaction_id == 0,
                msg.data_size == 0x26,
                msg.command_class == 0x04,
                msg.command_id == 0x06,
                forall|k: int| 0 <= k < 3 + 7 * i ==> msg.arguments@[k] == prefix[k],
                forall|k: int| 3 + 7 * i <= k < 80 ==> msg.arguments@[k] == 0,
            decreases num_stages - i,
        {
            let (dpi_x, dpi_y) = stages[i];
            let x = encode_u16_as_bytes(clamp(dpi_x, DPI_MIN, DPI_MAX));
            let y = encode_u16_as_bytes(clamp(dpi_y, DPI_MIN, DPI_MAX));
            let at: usize = 3 + 7 * i;
            msg.arguments[at] = i as u8;
            msg.arguments[at + 1] = x[0];
            msg.arguments[at + 2] = x[1];
            msg.arguments[at + 3] = y[0];
            msg.arguments[at + 4] = y[1];
            msg.arguments[at + 5] = 0;
            msg.arguments[at + 6] = 0;
            proof {
                let chunks = stage_chunks(stages@);
                assert forall|k: int| at <= k < at + 7 implies msg.arguments@[k] == prefix[k] by {
                    let j = k - 3;
                    assert(j / 7 == i as int && j % 7 == k - at);
                    assert(prefix[k] == chunks[j]);
                    assert(chunks[j] == stage_chunk(i as int, stages@[i as int])[k - at]);
                }
            }
            i += 1;
        }
        assert(msg.arguments@ =~= padded(prefix));
        msg
    }

    /// Asks for the polling rate.
    pub fn get_polling_rate() -> (b: RazerMessageBuilder)
        ensures
            b.holds(0x00, 0x85, 0x01, Seq::empty()),
    {
        RazerMessageBuilder::command(0x00, 0x85, 0x01)
    }

    /// Sets one of the normal polling rates.
    pub fn set_polling_rate(polling_rate: NormalPollingRate) -> (b: RazerMessageBuilder)
        ensures
            b.holds(0x00, 0x05, 0x01, seq![polling_rate.code_spec()]),
    {
        let mut msg = RazerMessageBuilder::command(0x00, 0x05, 0x01);
        msg.arguments[0] = polling_rate.code();
        assert(msg.arguments@ =~= padded(seq![polling_rate.code_spec()]));
        msg
    }

    /// Sets one of the extended polling rates.
    pub fn set_polling_rate_extended(polling_rate: ExtendedPollingRate) -> (b:
        RazerMessageBuilder)
        ensures
            b.holds(0x00, 0x40, 0x02, seq![0x00, polling_rate.flag_spec()]),
    {
        let mut msg = RazerMessageBuilder::command(0x00, 0x40, 0x02);
        msg.arguments[0] = 0x00;
        msg.arguments[1] = polling_rate.flag();
        assert(msg.arguments@ =~= padded(seq![0x00, polling_rate.flag_spec()]));
        msg
    }

    /// Sets the effect of one LED. The speed of the reactive effect is
    /// limited to 1..=4.
    pub fn chroma_extended_matrix_effect(
        var_store: VarStoreId,
        led_id: LedId,
        effect: ExtendedMatrixEffect,
    ) -> (b: RazerMessageBuilder)
        ensures
            b.holds(
                0x0F,
                0x02,
                effect_data_size(effect),
                effect_arguments(var_store, led_id, effect),
            ),
    {
        let mut msg = RazerMessageBuilder::command(0x0F, 0x02, 0x00);
        msg.arguments[0] = var_store.code();
        msg.arguments[1] = led_id.code();
        msg.arguments[2] = u8::from(effect);

        match effect {
            ExtendedMatrixEffect::Off => {
                msg.data_size = 0x06;
            },
            ExtendedMatrixEffect::Spectrum => {
                msg.data_size = 0x06;
            },
            ExtendedMatrixEffect::Static(color) => {
                msg.arguments[5] = 0x01;
                msg.arguments[6] = color.r;
                msg.arguments[7] = color.g;
                msg.arguments[8] = color.b;
                msg.data_size = 0x09;
            },
            ExtendedMatrixEffect::Breathing(breathing) => match breathing {
                BreathingEffect::Single(color) => {
                    msg.arguments[3] = 0x01;
                    msg.arguments[4] = 0x00;
                    msg.arguments[5] = 0x01;
                    msg.arguments[6] = color.r;
                    msg.arguments[7] = color.g;
                    msg.arguments[8] = color.b;
                    msg.data_size = 0x09;
                },
                BreathingEffect::Dual(color, color1) => {
                    msg.arguments[3] = 0x02;
                    msg.arguments[4] = 0x00;
                    msg.arguments[5] = 0x02;
                    msg.arguments[6] = color.r;
                    msg.arguments[7] = color.g;
                    msg.arguments[8] = color.b;
                    msg.arguments[9] = color1.r;
                    msg.arguments[10] = color1.g;
                    msg.arguments[11] = color1.b;
                    msg.data_size = 0x0C;
                },
                BreathingEffect::Random => {
                    msg.data_size = 0x06;
                },
            },
            ExtendedMatrixEffect::Reactive(color, speed) => {
                let speed = clamp(speed as u16, 0x01, 0x04) as u8;
                msg.arguments[4] = speed;
                msg.arguments[5] = 0x01;
                msg.arguments[6] = color.r;
                msg.arguments[7] = color.g;
                msg.arguments[8] = color.b;
                msg.data_size = 0x09;
            },
        }
        assert(msg.arguments@ =~= padded(effect_arguments(var_store, led_id, effect)));
        msg
    }
}

} // verus!
