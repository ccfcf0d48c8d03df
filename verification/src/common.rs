//! Constants, numeric helpers and the value types of the settings.

use vstd::prelude::*;
use crate::error::{DriverError, ValidationFailure};

verus! {

/// USB vendor id that selects candidate devices.
pub const RAZER_USB_VENDOR_ID: u16 = 0x1532;

/// Size in bytes of every report, whatever the command.
pub const RAZER_REPORT_SIZE: usize = 90;

/// Size in bytes of the argument area of a report.
pub const RAZER_REPORT_ARGUMENT_SIZE: usize = 80;

/// The interface of the device that takes the reports.
pub const RAZER_USB_INTERFACE_NUMBER: u8 = 0x00;

/// Milliseconds the firmware needs between a command and the next query.
pub const RAZER_MOUSE_WAIT_TIME: u64 = 60;

/// The most presets a stage table holds.
pub const RAZER_MOUSE_MAX_DPI_STAGES: u8 = 5;

/// HID class request that reads a report.
pub const HID_REQ_GET_REPORT: u8 = 0x01;

/// HID class request that writes a report.
pub const HID_REQ_SET_REPORT: u8 = 0x09;

/// Lowest resolution that is transmitted.
pub const DPI_MIN: u16 = 100;

/// Highest resolution that is transmitted.
pub const DPI_MAX: u16 = 35000;

/// The larger of `low` and `val`, but no more than `high`.
pub open spec fn clamp_spec(val: int, low: int, high: int) -> int {
    let floor = if val < low { low } else { val };
    if floor > high { high } else { floor }
}

/// A resolution as it is transmitted: limited to `DPI_MIN..=DPI_MAX`.
pub open spec fn clamp_dpi(val: u16) -> u16 {
    clamp_spec(val as int, DPI_MIN as int, DPI_MAX as int) as u16
}

/// A stage as the device receives it: each axis limited to
/// `DPI_MIN..=DPI_MAX`.
pub open spec fn clamp_stage(stage: (u16, u16)) -> (u16, u16) {
    (clamp_dpi(stage.0), clamp_dpi(stage.1))
}

/// The stages as the device receives them: each one limited, in the same
/// order.
pub open spec fn clamp_stages(stages: Seq<(u16, u16)>) -> Seq<(u16, u16)> {
    Seq::new(stages.len(), |i: int| clamp_stage(stages[i]))
}

/// True if every axis of every stage lies in `DPI_MIN..=DPI_MAX`.
pub open spec fn stages_in_range(stages: Seq<(u16, u16)>) -> bool {
    forall|i: int|
        0 <= i < stages.len() ==> DPI_MIN <= (#[trigger] stages[i]).0 <= DPI_MAX && DPI_MIN
            <= stages[i].1 <= DPI_MAX
}

/// Limits `val` from below by `min_range`, then from above by `max_range`.
pub fn clamp(val: u16, min_range: u16, max_range: u16) -> (r: u16)
    ensures
        r == clamp_spec(val as int, min_range as int, max_range as int),
{
    let floor = if val < min_range { min_range } else { val };
    if floor > max_range { max_range } else { floor }
}

/// The more significant byte of a 16-bit value.
pub open spec fn high_byte(val: u16) -> u8 {
    (val / 256) as u8
}

/// The less significant byte of a 16-bit value.
pub open spec fn low_byte(val: u16) -> u8 {
    (val % 256) as u8
}

/// A 16-bit value as two bytes, most significant first.
pub open spec fn be_bytes(val: u16) -> Seq<u8> {
    seq![high_byte(val), low_byte(val)]
}

/// The 16-bit value whose most significant byte is `hi`.
pub open spec fn be_value(hi: u8, lo: u8) -> u16 {
    (hi * 256 + lo) as u16
}

/// Reading back the two bytes of a value gives the value.
pub proof fn lemma_be_value_of_bytes(val: u16)
    ensures
        be_value(high_byte(val), low_byte(val)) == val,
{
}

/// Splitting the value made of two bytes gives the two bytes.
pub proof fn lemma_be_bytes_of_value(hi: u8, lo: u8)
    ensures
        high_byte(be_value(hi, lo)) == hi,
        low_byte(be_value(hi, lo)) == lo,
{
}

/// Reads a big-endian 16-bit value from the first two bytes of `val`.
pub fn decode_u16_from_bytes(val: &[u8]) -> (r: u16)
    requires
        val@.len() >= 2,
    ensures
        r == be_value(val@[0], val@[1]),
{
    let hi: u8 = val[0];
    let lo: u8 = val[1];
    assert(((hi as u16) << 8) | ((lo as u16) & 0xFF) == hi * 256 + lo) by (bit_vector);
    ((hi as u16) << 8) | ((lo as u16) & 0xFF)
}

/// Writes a 16-bit value as two bytes, most significant first.
pub fn encode_u16_as_bytes(val: u16) -> (r: [u8; 2])
    ensures
        r@ == be_bytes(val),
{
    assert((val >> 8) & 0xFF == val / 256) by (bit_vector);
    assert(val & 0xFF == val % 256) by (bit_vector);
    let r = [((val >> 8) & 0xFF) as u8, (val & 0xFF) as u8];
    assert(r@ =~= be_bytes(val));
    r
}

/// The memory bank of the device that a command addresses.
#[derive(Clone, Copy, Debug, PartialEq, Eq, Structural)]
pub enum VarStoreId {
    /// The volatile target: the setting is lost at power-off.
    NoStore,
    /// The persistent bank.
    VarStore,
}

impl VarStoreId {
    /// The byte that names the bank on the wire.
    pub open spec fn code_spec(self) -> u8 {
        match self {
            VarStoreId::NoStore => 0x00,
            VarStoreId::VarStore => 0x01,
        }
    }

    /// The byte that names the bank on the wire.
    pub fn code(self) -> (c: u8)
        ensures
            c == self.code_spec(),
    {
        match self {
            VarStoreId::NoStore => 0x00,
            VarStoreId::VarStore => 0x01,
        }
    }
}

/// A sensor resolution, one value per axis.
#[derive(Clone, Copy, Debug, PartialEq, Eq, Structural)]
pub struct Dpi {
    pub x: u16,
    pub y: u16,
}

impl Dpi {
    /// The resolution as the device receives it: each axis limited to
    /// `DPI_MIN..=DPI_MAX`.
    pub open spec fn clamped_spec(self) -> Dpi {
        Dpi { x: clamp_dpi(self.x), y: clamp_dpi(self.y) }
    }

    /// The resolution as the device receives it.
    pub fn clamped(self) -> (r: Dpi)
        ensures
            r == self.clamped_spec(),
            DPI_MIN <= r.x <= DPI_MAX,
            DPI_MIN <= r.y <= DPI_MAX,
    {
        Dpi { x: clamp(self.x, DPI_MIN, DPI_MAX), y: clamp(self.y, DPI_MIN, DPI_MAX) }
    }
}

impl From<u16> for Dpi {
    fn from(value: u16) -> (r: Dpi) {
        Dpi { x: value, y: value }
    }
}

impl vstd::std_specs::convert::FromSpecImpl<u16> for Dpi {
    open spec fn obeys_from_spec() -> bool {
        true
    }

    open spec fn from_spec(value: u16) -> Dpi {
        Dpi { x: value, y: value }
    }
}

impl From<(u16, u16)> for Dpi {
    fn from(value: (u16, u16)) -> (r: Dpi) {
        Dpi { x: value.0, y: value.1 }
    }
}

impl vstd::std_specs::convert::FromSpecImpl<(u16, u16)> for Dpi {
    open spec fn obeys_from_spec() -> bool {
        true
    }

    open spec fn from_spec(value: (u16, u16)) -> Dpi {
        Dpi { x: value.0, y: value.1 }
    }
}

/// The presets a user cycles through, and which of them is in use.
///
/// A table holds between one and `RAZER_MOUSE_MAX_DPI_STAGES` stages, and
/// `active` is the position of one of them, counted from 1.
#[derive(Debug, PartialEq, Eq)]
pub struct DpiStages {
    active: u8,
    stages: Vec<(u16, u16)>,
}

/// The bounds that every stage table keeps.
pub open spec fn stage_table_ok(active: u8, stages: Seq<(u16, u16)>) -> bool {
    &&& 1 <= stages.len() <= RAZER_MOUSE_MAX_DPI_STAGES
    &&& 1 <= active <= stages.len()
}

impl DpiStages {
    #[verifier::type_invariant]
    spec fn inv(self) -> bool {
        stage_table_ok(self.active, self.stages@)
    }

    /// Position of the stage in use, counted from 1.
    pub closed spec fn active_spec(self) -> u8 {
        self.active
    }

    /// The stages in order, each as (x, y).
    pub closed spec fn stages_spec(self) -> Seq<(u16, u16)> {
        self.stages@
    }

    /// True of every table that exists at run time.
    pub open spec fn wf(self) -> bool {
        stage_table_ok(self.active_spec(), self.stages_spec())
    }

    /// Makes a table, or says which bound the input breaks. The count is
    /// checked first.
    pub fn new(active: u8, stages: Vec<(u16, u16)>) -> (r: Result<DpiStages, DriverError>)
        ensures
            r is Ok <==> stage_table_ok(active, stages@),
            r matches Ok(table) ==> table.active_spec() == active && table.stages_spec()
                == stages@ && table.wf(),
            r matches Err(e) ==> e == (if stages@.len() == 0 || stages@.len()
                > RAZER_MOUSE_MAX_DPI_STAGES {
                DriverError::Validation(ValidationFailure::StageCount)
            } else {
                DriverError::Validation(ValidationFailure::ActiveStage)
            }),
    {
        if stages.len() == 0 || stages.len() > 5 {
            Err(DriverError::Validation(ValidationFailure::StageCount))
        } else if active < 1 || active as usize > stages.len() {
            Err(DriverError::Validation(ValidationFailure::ActiveStage))
        } else {
            Ok(DpiStages { active, stages })
        }
    }

    /// Position of the stage in use, counted from 1.
    pub fn active(&self) -> (a: u8)
        ensures
            a == self.active_spec(),
            self.wf(),
    {
        proof {
            use_type_invariant(self);
        }
        self.active
    }

    /// The stages in order.
    pub fn stages(&self) -> (s: &Vec<(u16, u16)>)
        ensures
            s@ == self.stages_spec(),
            self.wf(),
    {
        proof {
            use_type_invariant(self);
        }
        &self.stages
    }
}

impl Clone for DpiStages {
    /// A table with the same active stage and the same stages.
    fn clone(&self) -> (r: DpiStages)
        ensures
            r.active_spec() == self.active_spec(),
            r.stages_spec() == self.stages_spec(),
            r.wf(),
    {
        proof {
            use_type_invariant(self);
        }
        let mut stages: Vec<(u16, u16)> = Vec::new();
        let mut i: usize = 0;
        while i < self.stages.len()
            invariant
                i <= self.stages@.len(),
                stages@ == self.stages@.subrange(0, i as int),
            decreases self.stages@.len() - i,
        {
            stages.push(self.stages[i]);
            i += 1;
        }
        assert(stages@ == self.stages@);
        DpiStages { active: self.active, stages }
    }
}

/// The rates that every device of the family takes.
#[derive(Clone, Copy, Debug, PartialEq, Eq, Structural)]
pub enum NormalPollingRate {
    Rate1000,
    Rate500,
    Rate125,
}

/// The rates of the devices with the extended command.
#[derive(Clone, Copy, Debug, PartialEq, Eq, Structural)]
pub enum ExtendedPollingRate {
    Rate8000,
    Rate4000,
    Rate2000,
    Rate1000,
    Rate500,
    Rate250,
    Rate125,
}

/// A polling rate, tagged by the command that sets it.
#[derive(Clone, Copy, Debug, PartialEq, Eq, Structural)]
pub enum PollingRate {
    Normal(NormalPollingRate),
    Extended(ExtendedPollingRate),
}

impl NormalPollingRate {
    /// The rate in reports per second.
    pub open spec fn hz(self) -> u16 {
        match self {
            NormalPollingRate::Rate1000 => 1000,
            NormalPollingRate::Rate500 => 500,
            NormalPollingRate::Rate125 => 125,
        }
    }

    /// The rate with the given frequency, if there is one.
    pub open spec fn of_hz(value: u16) -> Option<NormalPollingRate> {
        if value == 1000 {
            Some(NormalPollingRate::Rate1000)
        } else if value == 500 {
            Some(NormalPollingRate::Rate500)
        } else if value == 125 {
            Some(NormalPollingRate::Rate125)
        } else {
            None
        }
    }
}

impl ExtendedPollingRate {
    /// The rate in reports per second.
    pub open spec fn hz(self) -> u16 {
        match self {
            ExtendedPollingRate::Rate8000 => 8000,
            ExtendedPollingRate::Rate4000 => 4000,
            ExtendedPollingRate::Rate2000 => 2000,
            ExtendedPollingRate::Rate1000 => 1000,
            ExtendedPollingRate::Rate500 => 500,
            ExtendedPollingRate::Rate250 => 250,
            ExtendedPollingRate::Rate125 => 125,
        }
    }

    /// The rate with the given frequency, if there is one.
    pub open spec fn of_hz(value: u16) -> Option<ExtendedPollingRate> {
        if value == 8000 {
            Some(ExtendedPollingRate::Rate8000)
        } else if value == 4000 {
            Some(ExtendedPollingRate::Rate4000)
        } else if value == 2000 {
            Some(ExtendedPollingRate::Rate2000)
        } else if value == 1000 {
            Some(ExtendedPollingRate::Rate1000)
        } else if value == 500 {
            Some(ExtendedPollingRate::Rate500)
        } else if value == 250 {
            Some(ExtendedPollingRate::Rate250)
        } else if value == 125 {
            Some(ExtendedPollingRate::Rate125)
        } else {
            None
        }
    }
}

impl PollingRate {
    /// The rate in reports per second.
    pub open spec fn hz(self) -> u16 {
        match self {
            PollingRate::Normal(rate) => rate.hz(),
            PollingRate::Extended(rate) => rate.hz(),
        }
    }
}

impl From<NormalPollingRate> for u16 {
    fn from(value: NormalPollingRate) -> (r: u16) {
        match value {
            NormalPollingRate::Rate1000 => 1000,
            NormalPollingRate::Rate500 => 500,
            NormalPollingRate::Rate125 => 125,
        }
    }
}

impl vstd::std_specs::convert::FromSpecImpl<NormalPollingRate> for u16 {
    open spec fn obeys_from_spec() -> bool {
        true
    }

    open spec fn from_spec(value: NormalPollingRate) -> u16 {
        value.hz()
    }
}

impl From<ExtendedPollingRate> for u16 {
    fn from(value: ExtendedPollingRate) -> (r: u16) {
        match value {
            ExtendedPollingRate::Rate8000 => 8000,
            ExtendedPollingRate::Rate4000 => 4000,
            ExtendedPollingRate::Rate2000 => 2000,
            ExtendedPollingRate::Rate1000 => 1000,
            ExtendedPollingRate::Rate500 => 500,
            ExtendedPollingRate::Rate250 => 250,
            ExtendedPollingRate::Rate125 => 125,
        }
    }
}

impl vstd::std_specs::convert::FromSpecImpl<ExtendedPollingRate> for u16 {
    open spec fn obeys_from_spec() -> bool {
        true
    }

    open spec fn from_spec(value: ExtendedPollingRate) -> u16 {
        value.hz()
    }
}

impl From<PollingRate> for u16 {
    fn from(value: PollingRate) -> (r: u16) {
        match value {
            PollingRate::Normal(rate) => u16::from(rate),
            PollingRate::Extended(rate) => u16::from(rate),
        }
    }
}

impl vstd::std_specs::convert::FromSpecImpl<PollingRate> for u16 {
    open spec fn obeys_from_spec() -> bool {
        true
    }

    open spec fn from_spec(value: PollingRate) -> u16 {
        value.hz()
    }
}

impl From<NormalPollingRate> for PollingRate {
    fn from(value: NormalPollingRate) -> (r: PollingRate) {
        PollingRate::Normal(value)
    }
}

impl vstd::std_specs::convert::FromSpecImpl<NormalPollingRate> for PollingRate {
    open spec fn obeys_from_spec() -> bool {
        true
    }

    open spec fn from_spec(value: NormalPollingRate) -> PollingRate {
        PollingRate::Normal(value)
    }
}

impl From<ExtendedPollingRate> for PollingRate {
    fn from(value: ExtendedPollingRate) -> (r: PollingRate) {
        PollingRate::Extended(value)
    }
}

impl vstd::std_specs::convert::FromSpecImpl<ExtendedPollingRate> for PollingRate {
    open spec fn obeys_from_spec() -> bool {
        true
    }

    open spec fn from_spec(value: ExtendedPollingRate) -> PollingRate {
        PollingRate::Extended(value)
    }
}

impl TryFrom<u16> for NormalPollingRate {
    type Error = ();

    fn try_from(value: u16) -> (r: Result<NormalPollingRate, ()>) {
        if value == 1000 {
            Ok(NormalPollingRate::Rate1000)
        } else if value == 500 {
            Ok(NormalPollingRate::Rate500)
        } else if value == 125 {
            Ok(NormalPollingRate::Rate125)
        } else {
            Err(())
        }
    }
}

impl vstd::std_specs::convert::TryFromSpecImpl<u16> for NormalPollingRate {
    open spec fn obeys_try_from_spec() -> bool {
        true
    }

    open spec fn try_from_spec(value: u16) -> Result<NormalPollingRate, ()> {
        match NormalPollingRate::of_hz(value) {
            Some(rate) => Ok(rate),
            None => Err(()),
        }
    }
}

impl TryFrom<u16> for ExtendedPollingRate {
    type Error = ();

    fn try_from(value: u16) -> (r: Result<ExtendedPollingRate, ()>) {
        if value == 8000 {
            Ok(ExtendedPollingRate::Rate8000)
        } else if value == 4000 {
            Ok(ExtendedPollingRate::Rate4000)
        } else if value == 2000 {
            Ok(ExtendedPollingRate::Rate2000)
        } else if value == 1000 {
            Ok(ExtendedPollingRate::Rate1000)
        } else if value == 500 {
            Ok(ExtendedPollingRate::Rate500)
        } else if value == 250 {
            Ok(ExtendedPollingRate::Rate250)
        } else if value == 125 {
            Ok(ExtendedPollingRate::Rate125)
        } else {
            Err(())
        }
    }
}

impl vstd::std_specs::convert::TryFromSpecImpl<u16> for ExtendedPollingRate {
    open spec fn obeys_try_from_spec() -> bool {
        true
    }

    open spec fn try_from_spec(value: u16) -> Result<ExtendedPollingRate, ()> {
        match ExtendedPollingRate::of_hz(value) {
            Some(rate) => Ok(rate),
            None => Err(()),
        }
    }
}

/// Each rate is found again by its frequency.
pub proof fn lemma_polling_rate_by_frequency(normal: NormalPollingRate, extended: ExtendedPollingRate)
    ensures
        NormalPollingRate::of_hz(normal.hz()) == Some(normal),
        ExtendedPollingRate::of_hz(extended.hz()) == Some(extended),
{
}

/// A frequency that names a rate is the frequency of that rate.
pub proof fn lemma_frequency_of_polling_rate(value: u16)
    ensures
        NormalPollingRate::of_hz(value) matches Some(rate) ==> rate.hz() == value,
        ExtendedPollingRate::of_hz(value) matches Some(rate) ==> rate.hz() == value,
{
}

} // verus!
