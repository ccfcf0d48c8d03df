//! The supported devices: what each one can do, under which transaction id,
//! and the request that each operation sends.

use std::collections::HashSet;
use vstd::prelude::*;
use crate::chroma::{ExtendedMatrixEffect, LedId};
use crate::commands::{
    dpi_arguments, effect_arguments, effect_data_size, stage_table_arguments,
};
use crate::common::{Dpi, DpiStages, PollingRate, VarStoreId, DPI_MAX, DPI_MIN};
use crate::error::{DriverError, ValidationFailure};
use crate::message::{checksum, padded, RazerMessage, RazerMessageBuilder};

verus! {

/// Product id of the DeathAdder V2 Pro in wireless mode.
pub const DEATHADDER_V2_PRO_WIRELESS: u16 = 0x007D;

/// The operations a device may implement.
#[derive(Clone, Copy, Debug, PartialEq, Eq, Structural)]
pub enum Operation {
    GetDpi,
    SetDpi,
    GetDpiStages,
    SetDpiStages,
    GetPollingRate,
    SetPollingRate,
    GetBatteryLevel,
    GetChargingStatus,
    ChromaLogoMatrixEffect,
}

impl Operation {
    /// The place of the operation in the list of all operations.
    pub open spec fn position(self) -> int {
        match self {
            Operation::GetDpi => 0,
            Operation::SetDpi => 1,
            Operation::GetDpiStages => 2,
            Operation::SetDpiStages => 3,
            Operation::GetPollingRate => 4,
            Operation::SetPollingRate => 5,
            Operation::GetBatteryLevel => 6,
            Operation::GetChargingStatus => 7,
            Operation::ChromaLogoMatrixEffect => 8,
        }
    }

    /// True for the queries: the operations that read an answer back.
    pub open spec fn expects_response_spec(self) -> bool {
        match self {
            Operation::GetDpi => true,
            Operation::GetDpiStages => true,
            Operation::GetPollingRate => true,
            Operation::GetBatteryLevel => true,
            Operation::GetChargingStatus => true,
            Operation::SetDpi => false,
            Operation::SetDpiStages => false,
            Operation::SetPollingRate => false,
            Operation::ChromaLogoMatrixEffect => false,
        }
    }

    /// True for the queries: the operations that read an answer back.
    pub fn expects_response(self) -> (r: bool)
        ensures
            r == self.expects_response_spec(),
    {
        match self {
            Operation::GetDpi => true,
            Operation::GetDpiStages => true,
            Operation::GetPollingRate => true,
            Operation::GetBatteryLevel => true,
            Operation::GetChargingStatus => true,
            Operation::SetDpi => false,
            Operation::SetDpiStages => false,
            Operation::SetPollingRate => false,
            Operation::ChromaLogoMatrixEffect => false,
        }
    }

    /// The name of the operation in a device table.
    pub open spec fn name_spec(self) -> Seq<char> {
        match self {
            Operation::GetDpi => "get_dpi"@,
            Operation::SetDpi => "set_dpi"@,
            Operation::GetDpiStages => "get_dpi_stages"@,
            Operation::SetDpiStages => "set_dpi_stages"@,
            Operation::GetPollingRate => "get_polling_rate"@,
            Operation::SetPollingRate => "set_polling_rate"@,
            Operation::GetBatteryLevel => "get_battery_level"@,
            Operation::GetChargingStatus => "get_charging_status"@,
            Operation::ChromaLogoMatrixEffect => "chroma_logo_matrix_effect"@,
        }
    }

    /// The operation that a name stands for, if it is the name of one. The
    /// names are tried in the order of the operations.
    pub open spec fn of_name(name: Seq<char>) -> Option<Operation> {
        if name == Operation::GetDpi.name_spec() {
            Some(Operation::GetDpi)
        } else if name == Operation::SetDpi.name_spec() {
            Some(Operation::SetDpi)
        } else if name == Operation::GetDpiStages.name_spec() {
            Some(Operation::GetDpiStages)
        } else if name == Operation::SetDpiStages.name_spec() {
            Some(Operation::SetDpiStages)
        } else if name == Operation::GetPollingRate.name_spec() {
            Some(Operation::GetPollingRate)
        } else if name == Operation::SetPollingRate.name_spec() {
            Some(Operation::SetPollingRate)
        } else if name == Operation::GetBatteryLevel.name_spec() {
            Some(Operation::GetBatteryLevel)
        } else if name == Operation::GetChargingStatus.name_spec() {
            Some(Operation::GetChargingStatus)
        } else if name == Operation::ChromaLogoMatrixEffect.name_spec() {
            Some(Operation::ChromaLogoMatrixEffect)
        } else {
            None
        }
    }

    /// The name of the operation in a device table.
    pub fn name(self) -> (text: &'static str)
        ensures
            text@ == self.name_spec(),
    {
        match self {
            Operation::GetDpi => "get_dpi",
            Operation::SetDpi => "set_dpi",
            Operation::GetDpiStages => "get_dpi_stages",
            Operation::SetDpiStages => "set_dpi_stages",
            Operation::GetPollingRate => "get_polling_rate",
            Operation::SetPollingRate => "set_polling_rate",
            Operation::GetBatteryLevel => "get_battery_level",
            Operation::GetChargingStatus => "get_charging_status",
            Operation::ChromaLogoMatrixEffect => "chroma_logo_matrix_effect",
        }
    }

    /// Finds the operation that a name of a device table stands for. A name
    /// that is none of the nine is no operation.
    pub fn from_name(name: &str) -> (r: Option<Operation>)
        ensures
            r == Operation::of_name(name@),
            r matches Some(operation) ==> operation.name_spec() == name@,
    {
        let candidates = [
            Operation::GetDpi,
            Operation::SetDpi,
            Operation::GetDpiStages,
            Operation::SetDpiStages,
            Operation::GetPollingRate,
            Operation::SetPollingRate,
            Operation::GetBatteryLevel,
            Operation::GetChargingStatus,
            Operation::ChromaLogoMatrixEffect,
        ];
        let mut i: usize = 0;
        while i < 9
            invariant
                i <= 9,
                candidates@.len() == 9,
                forall|c: int| 0 <= c < 9 ==> (#[trigger] candidates@[c]).position() == c,
                forall|operation: Operation|
                    operation.position() < i ==> #[trigger] operation.name_spec() != name@,
            decreases 9 - i,
        {
            let candidate = candidates[i];
            assert(candidate.position() == i);
            if same_text(candidate.name(), name) {
                return Some(candidate);
            }
            i += 1;
        }
        None
    }
}

/// No two operations share a name, so every operation is found again by
/// its own name.
pub proof fn lemma_operation_names_distinct(a: Operation, b: Operation)
    ensures
        a.name_spec() == b.name_spec() ==> a == b,
        Operation::of_name(a.name_spec()) == Some(a),
{
    reveal_strlit("get_dpi");
    reveal_strlit("set_dpi");
    reveal_strlit("get_dpi_stages");
    reveal_strlit("set_dpi_stages");
    reveal_strlit("get_polling_rate");
    reveal_strlit("set_polling_rate");
    reveal_strlit("get_battery_level");
    reveal_strlit("get_charging_status");
    reveal_strlit("chroma_logo_matrix_effect");
    let get_dpi = "get_dpi"@;
    let set_dpi = "set_dpi"@;
    let get_stages = "get_dpi_stages"@;
    let set_stages = "set_dpi_stages"@;
    let get_rate = "get_polling_rate"@;
    let set_rate = "set_polling_rate"@;
    assert(get_dpi.len() == 7 && set_dpi.len() == 7);
    assert(get_stages.len() == 14 && set_stages.len() == 14);
    assert(get_rate.len() == 16 && set_rate.len() == 16);
    assert("get_battery_level"@.len() == 17);
    assert("get_charging_status"@.len() == 19);
    assert("chroma_logo_matrix_effect"@.len() == 25);
    assert(get_dpi[0] == 'g' && set_dpi[0] == 's');
    assert(get_stages[0] == 'g' && set_stages[0] == 's');
    assert(get_rate[0] == 'g' && set_rate[0] == 's');
}

/// True if two texts hold the same characters.
fn same_text(a: &str, b: &str) -> (r: bool)
    ensures
        r == (a@ == b@),
{
    let len = a.unicode_len();
    if len != b.unicode_len() {
        return false;
    }
    let mut i: usize = 0;
    while i < len
        invariant
            i <= len,
            len == a@.len(),
            len == b@.len(),
            forall|k: int| 0 <= k < i ==> a@[k] == b@[k],
        decreases len - i,
    {
        if a.get_char(i) != b.get_char(i) {
            return false;
        }
        i += 1;
    }
    assert(a@ =~= b@);
    true
}

/// The operations that a device implements, one flag each.
#[derive(Clone, Copy, Debug, PartialEq, Eq, Structural)]
pub struct OperationSet {
    pub get_dpi: bool,
    pub set_dpi: bool,
    pub get_dpi_stages: bool,
    pub set_dpi_stages: bool,
    pub get_polling_rate: bool,
    pub set_polling_rate: bool,
    pub get_battery_level: bool,
    pub get_charging_status: bool,
    pub chroma_logo_matrix_effect: bool,
}

impl OperationSet {
    /// True if the operation is in the set.
    pub open spec fn contains_spec(self, operation: Operation) -> bool {
        match operation {
            Operation::GetDpi => self.get_dpi,
            Operation::SetDpi => self.set_dpi,
            Operation::GetDpiStages => self.get_dpi_stages,
            Operation::SetDpiStages => self.set_dpi_stages,
            Operation::GetPollingRate => self.get_polling_rate,
            Operation::SetPollingRate => self.set_polling_rate,
            Operation::GetBatteryLevel => self.get_battery_level,
            Operation::GetChargingStatus => self.get_charging_status,
            Operation::ChromaLogoMatrixEffect => self.chroma_logo_matrix_effect,
        }
    }

    /// The set as a set.
    pub open spec fn view(self) -> Set<Operation> {
        Set::new(|operation: Operation| self.contains_spec(operation))
    }

    /// True if the operation is in the set.
    pub fn contains(&self, operation: Operation) -> (r: bool)
        ensures
            r == self.contains_spec(operation),
            r == self@.contains(operation),
    {
        match operation {
            Operation::GetDpi => self.get_dpi,
            Operation::SetDpi => self.set_dpi,
            Operation::GetDpiStages => self.get_dpi_stages,
            Operation::SetDpiStages => self.set_dpi_stages,
            Operation::GetPollingRate => self.get_polling_rate,
            Operation::SetPollingRate => self.set_polling_rate,
            Operation::GetBatteryLevel => self.get_battery_level,
            Operation::GetChargingStatus => self.get_charging_status,
            Operation::ChromaLogoMatrixEffect => self.chroma_logo_matrix_effect,
        }
    }

    /// Every operation.
    pub fn all() -> (set: OperationSet)
        ensures
            forall|operation: Operation| set.contains_spec(operation),
    {
        OperationSet {
            get_dpi: true,
            set_dpi: true,
            get_dpi_stages: true,
            set_dpi_stages: true,
            get_polling_rate: true,
            set_polling_rate: true,
            get_battery_level: true,
            get_charging_status: true,
            chroma_logo_matrix_effect: true,
        }
    }

    /// No operation.
    pub fn empty() -> (set: OperationSet)
        ensures
            forall|operation: Operation| !set.contains_spec(operation),
    {
        OperationSet {
            get_dpi: false,
            set_dpi: false,
            get_dpi_stages: false,
            set_dpi_stages: false,
            get_polling_rate: false,
            set_polling_rate: false,
            get_battery_level: false,
            get_charging_status: false,
            chroma_logo_matrix_effect: false,
        }
    }

    /// The set with or without one operation, the others as they were.
    pub fn with(self, operation: Operation, present: bool) -> (set: OperationSet)
        ensures
            set.contains_spec(operation) == present,
            forall|other: Operation|
                other != operation ==> set.contains_spec(other) == self.contains_spec(other),
    {
        let mut set = self;
        match operation {
            Operation::GetDpi => { set.get_dpi = present; },
            Operation::SetDpi => { set.set_dpi = present; },
            Operation::GetDpiStages => { set.get_dpi_stages = present; },
            Operation::SetDpiStages => { set.set_dpi_stages = present; },
            Operation::GetPollingRate => { set.get_polling_rate = present; },
            Operation::SetPollingRate => { set.set_polling_rate = present; },
            Operation::GetBatteryLevel => { set.get_battery_level = present; },
            Operation::GetChargingStatus => { set.get_charging_status = present; },
            Operation::ChromaLogoMatrixEffect => { set.chroma_logo_matrix_effect = present; },
        }
        set
    }
}

/// The kinds of polling rate that a device takes.
#[derive(Clone, Copy, Debug, PartialEq, Eq, Structural)]
pub struct PollingRateKinds {
    pub normal: bool,
    pub extended: bool,
}

impl PollingRateKinds {
    /// True if a rate of this kind is accepted.
    pub open spec fn accepts_spec(self, rate: PollingRate) -> bool {
        match rate {
            PollingRate::Normal(_) => self.normal,
            PollingRate::Extended(_) => self.extended,
        }
    }

    /// True if a rate of this kind is accepted.
    pub fn accepts(&self, rate: PollingRate) -> (r: bool)
        ensures
            r == self.accepts_spec(rate),
    {
        match rate {
            PollingRate::Normal(_) => self.normal,
            PollingRate::Extended(_) => self.extended,
        }
    }
}

/// What is known of one device of the family.
#[derive(Clone, Copy, Debug, PartialEq, Eq)]
pub struct DeviceProfile {
    /// The USB product id that selects the profile.
    pub product_id: u16,
    /// The tag that every report to this device carries.
    pub transaction_id: u8,
    /// The bank that the resolution commands address.
    pub var_store: VarStoreId,
    /// The lowest and highest resolution, where the device has a sensor
    /// setting.
    pub dpi_range: Option<(u16, u16)>,
    /// The kinds of polling rate that the device takes.
    pub polling_rates: PollingRateKinds,
    /// The operations that the device implements.
    pub operations: OperationSet,
}

/// The profile of the DeathAdder V2 Pro in wireless mode.
pub open spec fn deathadder_v2_pro_wireless() -> DeviceProfile {
    DeviceProfile {
        product_id: DEATHADDER_V2_PRO_WIRELESS,
        transaction_id: 0x3f,
        var_store: VarStoreId::NoStore,
        dpi_range: Some((DPI_MIN, DPI_MAX)),
        polling_rates: PollingRateKinds { normal: true, extended: false },
        operations: OperationSet {
            get_dpi: true,
            set_dpi: true,
            get_dpi_stages: true,
            set_dpi_stages: true,
            get_polling_rate: true,
            set_polling_rate: true,
            get_battery_level: true,
            get_charging_status: true,
            chroma_logo_matrix_effect: true,
        },
    }
}

/// The table of supported devices.
pub open spec fn registry_spec() -> Seq<DeviceProfile> {
    seq![deathadder_v2_pro_wireless()]
}

/// True if no two entries of the table share a product id.
pub open spec fn product_ids_distinct(profiles: Seq<DeviceProfile>) -> bool {
    forall|i: int, j: int|
        0 <= i < j < profiles.len() ==> profiles[i].product_id != profiles[j].product_id
}

/// True if entry `j` repeats the product id of an earlier entry.
pub open spec fn repeats_earlier(profiles: Seq<DeviceProfile>, j: int) -> bool {
    exists|i: int| 0 <= i < j && profiles[i].product_id == #[trigger] profiles[j].product_id
}

/// The entry of the table with the given product id, if there is one.
pub open spec fn lookup(profiles: Seq<DeviceProfile>, product_id: u16) -> Option<DeviceProfile>
    decreases profiles.len(),
{
    if profiles.len() == 0 {
        None
    } else if profiles[0].product_id == product_id {
        Some(profiles[0])
    } else {
        lookup(profiles.drop_first(), product_id)
    }
}

/// The profile that a product id resolves to.
pub open spec fn resolve_spec(product_id: u16) -> Option<DeviceProfile> {
    lookup(registry_spec(), product_id)
}

/// The table of supported devices.
pub fn registry() -> (table: Vec<DeviceProfile>)
    ensures
        table@ == registry_spec(),
        product_ids_distinct(table@),
{
    let mut table: Vec<DeviceProfile> = Vec::new();
    table.push(
        DeviceProfile {
            product_id: DEATHADDER_V2_PRO_WIRELESS,
            transaction_id: 0x3f,
            var_store: VarStoreId::NoStore,
            dpi_range: Some((DPI_MIN, DPI_MAX)),
            polling_rates: PollingRateKinds { normal: true, extended: false },
            operations: OperationSet {
                get_dpi: true,
                set_dpi: true,
                get_dpi_stages: true,
                set_dpi_stages: true,
                get_polling_rate: true,
                set_polling_rate: true,
                get_battery_level: true,
                get_charging_status: true,
                chroma_logo_matrix_effect: true,
            },
        },
    );
    assert(table@ =~= registry_spec());
    table
}

/// Finds the first entry of a device table that repeats the product id of an
/// earlier entry. A table without such an entry resolves every product id to
/// at most one profile.
pub fn find_first_duplicate(profiles: &Vec<DeviceProfile>) -> (r: Option<usize>)
    ensures
        r is None <==> product_ids_distinct(profiles@),
        r matches Some(j) ==> j < profiles@.len() && repeats_earlier(profiles@, j as int)
            && forall|k: int| 0 <= k < j ==> !repeats_earlier(profiles@, k),
{
    broadcast use vstd::std_specs::hash::group_hash_axioms;

    let mut seen: HashSet<u16> = HashSet::new();
    let mut j: usize = 0;
    while j < profiles.len()
        invariant
            j <= profiles@.len(),
            forall|id: u16|
                seen@.contains(id) <==> exists|i: int|
                    0 <= i < j && #[trigger] profiles@[i].product_id == id,
            forall|k: int| 0 <= k < j ==> !repeats_earlier(profiles@, k),
        decreases profiles@.len() - j,
    {
        let product_id = profiles[j].product_id;
        if seen.contains(&product_id) {
            assert(repeats_earlier(profiles@, j as int));
            return Some(j);
        }
        assert(!repeats_earlier(profiles@, j as int));
        seen.insert(product_id);
        j += 1;
    }
    assert(product_ids_distinct(profiles@)) by {
        assert forall|a: int, b: int| 0 <= a < b < profiles@.len() implies profiles@[a].product_id
            != profiles@[b].product_id by {
            if profiles@[a].product_id == profiles@[b].product_id {
                assert(repeats_earlier(profiles@, b));
            }
        }
    }
    None
}

/// Finds the profile of a device by its USB product id. An id that the
/// table does not hold is refused: nothing can be done with such a device.
pub fn resolve(product_id: u16) -> (r: Result<DeviceProfile, DriverError>)
    ensures
        r is Ok <==> resolve_spec(product_id) is Some,
        r matches Ok(profile) ==> resolve_spec(product_id) == Some(profile) && profile.product_id
            == product_id,
        r matches Err(e) ==> e == DriverError::UnsupportedDevice,
{
    let table = registry();
    let mut i: usize = 0;
    assert(table@.subrange(0, table@.len() as int) =~= table@);
    while i < table.len()
        invariant
            i <= table@.len(),
            table@ == registry_spec(),
            lookup(registry_spec(), product_id) == lookup(
                table@.subrange(i as int, table@.len() as int),
                product_id,
            ),
        decreases table@.len() - i,
    {
        let rest = Ghost(table@.subrange(i as int, table@.len() as int));
        assert(rest@.drop_first() =~= table@.subrange(i + 1, table@.len() as int));
        assert(rest@[0] == table@[i as int]);
        if table[i].product_id == product_id {
            return Ok(table[i]);
        }
        i += 1;
    }
    Err(DriverError::UnsupportedDevice)
}

/// The table resolves exactly the product ids it lists, each to the entry
/// that carries it.
pub proof fn lemma_resolve_known_ids(product_id: u16)
    ensures
        resolve_spec(DEATHADDER_V2_PRO_WIRELESS) == Some(deathadder_v2_pro_wireless()),
        product_id != DEATHADDER_V2_PRO_WIRELESS ==> resolve_spec(product_id) is None,
        resolve_spec(product_id) matches Some(profile) ==> profile.product_id == product_id,
        product_ids_distinct(registry_spec()),
{
    reveal_with_fuel(lookup, 3);
    assert(registry_spec().drop_first().len() == 0);
}

impl RazerMessage {
    /// True if the report is exactly this command, sealed: the given
    /// transaction id, class, id and data size, arguments that start with
    /// `prefix` and are zero after it, every other field zero and the
    /// checksum in place.
    pub open spec fn carries(
        self,
        transaction_id: u8,
        class: u8,
        id: u8,
        size: u8,
        prefix: Seq<u8>,
    ) -> bool {
        &&& self.status == 0
        &&& self.transaction_id == transaction_id
        &&& self.remaining_packets == 0
        &&& self.protocol_type == 0
        &&& self.data_size == size
        &&& self.command_class == class
        &&& self.command_id == id
        &&& self.arguments@ == padded(prefix)
        &&& self.crc == checksum(self.wire())
        &&& self.reserved == 0
    }
}

/// A command determines its report: two reports that carry the same command
/// are equal.
pub proof fn lemma_carries_unique(
    a: RazerMessage,
    b: RazerMessage,
    transaction_id: u8,
    class: u8,
    id: u8,
    size: u8,
    prefix: Seq<u8>,
)
    requires
        a.carries(transaction_id, class, id, size, prefix),
        b.carries(transaction_id, class, id, size, prefix),
    ensures
        a == b,
{
    assert(a.arguments =~= b.arguments);
    crate::message::lemma_checksum_ignores_own_byte(b, a.crc);
    crate::message::lemma_checksum_ignores_own_byte(a, b.crc);
    assert((RazerMessage { crc: b.crc, ..a }) == b);
}

/// A command with its arguments, as the contracts speak of it.
pub enum Command {
    GetDpi,
    SetDpi(Dpi),
    GetDpiStages,
    /// The active stage, counted from 1, and the stages in order.
    SetDpiStages(u8, Seq<(u16, u16)>),
    GetPollingRate,
    SetPollingRate(PollingRate),
    GetBatteryLevel,
    GetChargingStatus,
    ChromaLogoMatrixEffect(ExtendedMatrixEffect),
}

impl Command {
    /// The operation that the command performs.
    pub open spec fn operation(self) -> Operation {
        match self {
            Command::GetDpi => Operation::GetDpi,
            Command::SetDpi(_) => Operation::SetDpi,
            Command::GetDpiStages => Operation::GetDpiStages,
            Command::SetDpiStages(_, _) => Operation::SetDpiStages,
            Command::GetPollingRate => Operation::GetPollingRate,
            Command::SetPollingRate(_) => Operation::SetPollingRate,
            Command::GetBatteryLevel => Operation::GetBatteryLevel,
            Command::GetChargingStatus => Operation::GetChargingStatus,
            Command::ChromaLogoMatrixEffect(_) => Operation::ChromaLogoMatrixEffect,
        }
    }

    /// The command class.
    pub open spec fn class(self) -> u8 {
        match self {
            Command::GetDpi => 0x04,
            Command::SetDpi(_) => 0x04,
            Command::GetDpiStages => 0x04,
            Command::SetDpiStages(_, _) => 0x04,
            Command::GetPollingRate => 0x00,
            Command::SetPollingRate(_) => 0x00,
            Command::GetBatteryLevel => 0x07,
            Command::GetChargingStatus => 0x07,
            Command::ChromaLogoMatrixEffect(_) => 0x0F,
        }
    }

    /// The command id.
    pub open spec fn id(self) -> u8 {
        match self {
            Command::GetDpi => 0x85,
            Command::SetDpi(_) => 0x05,
            Command::GetDpiStages => 0x86,
            Command::SetDpiStages(_, _) => 0x06,
            Command::GetPollingRate => 0x85,
            Command::SetPollingRate(PollingRate::Normal(_)) => 0x05,
            Command::SetPollingRate(PollingRate::Extended(_)) => 0x40,
            Command::GetBatteryLevel => 0x80,
            Command::GetChargingStatus => 0x84,
            Command::ChromaLogoMatrixEffect(_) => 0x02,
        }
    }

    /// The data size.
    pub open spec fn data_size(self) -> u8 {
        match self {
            Command::GetDpi => 0x07,
            Command::SetDpi(_) => 0x07,
            Command::GetDpiStages => 0x26,
            Command::SetDpiStages(_, _) => 0x26,
            Command::GetPollingRate => 0x01,
            Command::SetPollingRate(PollingRate::Normal(_)) => 0x01,
            Command::SetPollingRate(PollingRate::Extended(_)) => 0x02,
            Command::GetBatteryLevel => 0x02,
            Command::GetChargingStatus => 0x02,
            Command::ChromaLogoMatrixEffect(effect) => effect_data_size(effect),
        }
    }

    /// The arguments, before the zero padding. Every resolution that is
    /// sent, a single one or a stage of a table, has each axis limited to
    /// `DPI_MIN..=DPI_MAX`. The resolution commands address the bank of the
    /// device's profile; the stage table and the lighting address the
    /// persistent bank.
    pub open spec fn arguments(self, var_store: VarStoreId) -> Seq<u8> {
        match self {
            Command::GetDpi => seq![var_store.code_spec()],
            Command::SetDpi(dpi) => dpi_arguments(var_store, dpi.clamped_spec()),
            Command::GetDpiStages => seq![VarStoreId::VarStore.code_spec()],
            Command::SetDpiStages(active, stages) => stage_table_arguments(
                VarStoreId::VarStore,
                active,
                stages,
            ),
            Command::GetPollingRate => Seq::empty(),
            Command::SetPollingRate(PollingRate::Normal(rate)) => seq![rate.code_spec()],
            Command::SetPollingRate(PollingRate::Extended(rate)) => seq![
                0x00,
                rate.flag_spec(),
            ],
            Command::GetBatteryLevel => Seq::empty(),
            Command::GetChargingStatus => Seq::empty(),
            Command::ChromaLogoMatrixEffect(effect) => effect_arguments(
                VarStoreId::VarStore,
                LedId::Logo,
                effect,
            ),
        }
    }
}

impl DeviceProfile {
    /// True if the device implements the operation.
    pub open spec fn supports_spec(self, operation: Operation) -> bool {
        self.operations.contains_spec(operation)
    }

    /// True if the device implements the operation.
    pub fn supports(&self, operation: Operation) -> (r: bool)
        ensures
            r == self.supports_spec(operation),
    {
        self.operations.contains(operation)
    }

    /// The operations of the device, each once, in the order of their
    /// positions.
    pub fn operations(&self) -> (list: Vec<Operation>)
        ensures
            forall|operation: Operation|
                list@.contains(operation) <==> self.supports_spec(operation),
            forall|a: int, b: int|
                0 <= a < b < list@.len() ==> list@[a].position() < list@[b].position(),
            list@.no_duplicates(),
    {
        let candidates = [
            Operation::GetDpi,
            Operation::SetDpi,
            Operation::GetDpiStages,
            Operation::SetDpiStages,
            Operation::GetPollingRate,
            Operation::SetPollingRate,
            Operation::GetBatteryLevel,
            Operation::GetChargingStatus,
            Operation::ChromaLogoMatrixEffect,
        ];
        let mut list: Vec<Operation> = Vec::new();
        let mut i: usize = 0;
        while i < 9
            invariant
                i <= 9,
                candidates@.len() == 9,
                candidates@ =~= seq![
                    Operation::GetDpi,
                    Operation::SetDpi,
                    Operation::GetDpiStages,
                    Operation::SetDpiStages,
                    Operation::GetPollingRate,
                    Operation::SetPollingRate,
                    Operation::GetBatteryLevel,
                    Operation::GetChargingStatus,
                    Operation::ChromaLogoMatrixEffect,
                ],
                forall|k: int|
                    0 <= k < list@.len() ==> exists|c: int|
                        0 <= c < i && candidates@[c] == #[trigger] list@[k],
                forall|c: int|
                    0 <= c < i && self.supports_spec(candidates@[c]) ==> list@.contains(
                        #[trigger] candidates@[c],
                    ),
                forall|k: int| 0 <= k < list@.len() ==> self.supports_spec(#[trigger] list@[k]),
                forall|k: int| 0 <= k < list@.len() ==> (#[trigger] list@[k]).position() < i,
                forall|a: int, b: int|
                    0 <= a < b < list@.len() ==> list@[a].position() < list@[b].position(),
                list@.no_duplicates(),
            decreases 9 - i,
        {
            let operation = candidates[i];
            assert(operation.position() == i);
            if self.supports(operation) {
                let ghost before = list@;
                assert(!before.contains(operation)) by {
                    if before.contains(operation) {
                        let k = choose|k: int| 0 <= k < before.len() && before[k] == operation;
                        let c = choose|c: int| 0 <= c < i && candidates@[c] == before[k];
                        assert(candidates@[c] != candidates@[i as int]);
                    }
                }
                list.push(operation);
                assert forall|c: int|
                    0 <= c < i + 1 && self.supports_spec(candidates@[c]) implies list@.contains(
                    #[trigger] candidates@[c],
                ) by {
                    if c < i {
                        let k = choose|k: int|
                            0 <= k < before.len() && before[k] == candidates@[c];
                        assert(list@[k] == candidates@[c]);
                    } else {
                        assert(list@[before.len() as int] == operation);
                    }
                }
            }
            i += 1;
        }
        assert forall|operation: Operation| self.supports_spec(operation) implies list@.contains(
            operation,
        ) by {
            let c: int = match operation {
                Operation::GetDpi => 0,
                Operation::SetDpi => 1,
                Operation::GetDpiStages => 2,
                Operation::SetDpiStages => 3,
                Operation::GetPollingRate => 4,
                Operation::SetPollingRate => 5,
                Operation::GetBatteryLevel => 6,
                Operation::GetChargingStatus => 7,
                Operation::ChromaLogoMatrixEffect => 8,
            };
            assert(candidates@[c] == operation);
        }
        list
    }

    /// Why the device refuses a command without any transfer, if it does:
    /// the operation is not one of its own, or the polling rate is of a
    /// kind it does not take. The operation is looked at first.
    pub open spec fn refusal(self, command: Command) -> Option<DriverError> {
        if !self.supports_spec(command.operation()) {
            Some(DriverError::UnsupportedOperation)
        } else {
            match command {
                Command::SetPollingRate(rate) => if self.polling_rates.accepts_spec(rate) {
                    None
                } else {
                    Some(DriverError::Validation(ValidationFailure::PollingRateKind))
                },
                _ => None,
            }
        }
    }

    /// True if `message` is the sealed report of the command for this
    /// device: under its transaction id, with the command's class, id, data
    /// size and arguments.
    pub open spec fn is_request(self, command: Command, message: RazerMessage) -> bool {
        message.carries(
            self.transaction_id,
            command.class(),
            command.id(),
            command.data_size(),
            command.arguments(self.var_store),
        )
    }

    /// True if `r` is what the device's profile makes of the command: the
    /// refusal where there is one, else the request.
    pub open spec fn plans(self, command: Command, r: Result<RazerMessage, DriverError>) -> bool {
        match self.refusal(command) {
            Some(e) => r == Err::<RazerMessage, DriverError>(e),
            None => r matches Ok(message) && self.is_request(command, message),
        }
    }

    fn seal(&self, command: RazerMessageBuilder) -> (message: RazerMessage)
        requires
            command.transaction_id == 0,
        ensures
            message.carries(
                self.transaction_id,
                command.command_class,
                command.command_id,
                command.data_size,
                Seq::new(80, |i: int| command.arguments@[i]),
            ),
    {
        let message = command.with_transaction_id(self.transaction_id).build();
        assert(message.arguments@ =~= padded(Seq::new(80, |i: int| command.arguments@[i])));
        message
    }

    /// The request that asks for the resolution.
    pub fn get_dpi_request(&self) -> (r: Result<RazerMessage, DriverError>)
        ensures
            r is Ok <==> self.supports_spec(Operation::GetDpi),
            self.plans(Command::GetDpi, r),
    {
        if !self.supports(Operation::GetDpi) {
            return Err(DriverError::UnsupportedOperation);
        }
        let message = self.seal(RazerMessageBuilder::get_dpi(self.var_store));
        proof {
            lemma_same_padding(Command::GetDpi.arguments(self.var_store));
        }
        Ok(message)
    }

    /// The request that sets the resolution, each axis limited to
    /// `DPI_MIN..=DPI_MAX`.
    pub fn set_dpi_request(&self, dpi: Dpi) -> (r: Result<RazerMessage, DriverError>)
        ensures
            r is Ok <==> self.supports_spec(Operation::SetDpi),
            self.plans(Command::SetDpi(dpi), r),
    {
        if !self.supports(Operation::SetDpi) {
            return Err(DriverError::UnsupportedOperation);
        }
        let message = self.seal(RazerMessageBuilder::set_dpi(self.var_store, dpi));
        proof {
            lemma_same_padding(Command::SetDpi(dpi).arguments(self.var_store));
        }
        Ok(message)
    }

    /// The request that asks for the stage table. The table lives in the
    /// persistent bank.
    pub fn get_dpi_stages_request(&self) -> (r: Result<RazerMessage, DriverError>)
        ensures
            r is Ok <==> self.supports_spec(Operation::GetDpiStages),
            self.plans(Command::GetDpiStages, r),
    {
        if !self.supports(Operation::GetDpiStages) {
            return Err(DriverError::UnsupportedOperation);
        }
        let message = self.seal(RazerMessageBuilder::get_dpi_stages(VarStoreId::VarStore));
        proof {
            lemma_same_padding(Command::GetDpiStages.arguments(self.var_store));
        }
        Ok(message)
    }

    /// The request that sets the stage table, in the persistent bank.
    pub fn set_dpi_stages_request(&self, dpi_stages: &DpiStages) -> (r: Result<
        RazerMessage,
        DriverError,
    >)
        ensures
            r is Ok <==> self.supports_spec(Operation::SetDpiStages),
            self.plans(
                Command::SetDpiStages(dpi_stages.active_spec(), dpi_stages.stages_spec()),
                r,
            ),
    {
        if !self.supports(Operation::SetDpiStages) {
            return Err(DriverError::UnsupportedOperation);
        }
        let message = self.seal(
            RazerMessageBuilder::set_dpi_stages(VarStoreId::VarStore, dpi_stages),
        );
        proof {
            lemma_same_padding(
                Command::SetDpiStages(
                    dpi_stages.active_spec(),
                    dpi_stages.stages_spec(),
                ).arguments(self.var_store),
            );
        }
        Ok(message)
    }

    /// The request that asks for the polling rate.
    pub fn get_polling_rate_request(&self) -> (r: Result<RazerMessage, DriverError>)
        ensures
            r is Ok <==> self.supports_spec(Operation::GetPollingRate),
            self.plans(Command::GetPollingRate, r),
    {
        if !self.supports(Operation::GetPollingRate) {
            return Err(DriverError::UnsupportedOperation);
        }
        let message = self.seal(RazerMessageBuilder::get_polling_rate());
        proof {
            lemma_same_padding(Command::GetPollingRate.arguments(self.var_store));
        }
        Ok(message)
    }

    /// The request that sets the polling rate. A device that does not set
    /// polling rates refuses the operation; one that does refuses a rate of
    /// a kind it does not take, and nothing is coerced.
    pub fn set_polling_rate_request(&self, polling_rate: PollingRate) -> (r: Result<
        RazerMessage,
        DriverError,
    >)
        ensures
            r is Ok <==> self.supports_spec(Operation::SetPollingRate)
                && self.polling_rates.accepts_spec(polling_rate),
            r matches Err(e) ==> e == (if self.supports_spec(Operation::SetPollingRate) {
                DriverError::Validation(ValidationFailure::PollingRateKind)
            } else {
                DriverError::UnsupportedOperation
            }),
            self.plans(Command::SetPollingRate(polling_rate), r),
    {
        if !self.supports(Operation::SetPollingRate) {
            return Err(DriverError::UnsupportedOperation);
        }
        if !self.polling_rates.accepts(polling_rate) {
            return Err(DriverError::Validation(ValidationFailure::PollingRateKind));
        }
        let message = match polling_rate {
            PollingRate::Normal(rate) => self.seal(RazerMessageBuilder::set_polling_rate(rate)),
            PollingRate::Extended(rate) => self.seal(
                RazerMessageBuilder::set_polling_rate_extended(rate),
            ),
        };
        proof {
            lemma_same_padding(Command::SetPollingRate(polling_rate).arguments(self.var_store));
        }
        Ok(message)
    }

    /// The request that asks for the battery level.
    pub fn get_battery_level_request(&self) -> (r: Result<RazerMessage, DriverError>)
        ensures
            r is Ok <==> self.supports_spec(Operation::GetBatteryLevel),
            self.plans(Command::GetBatteryLevel, r),
    {
        if !self.supports(Operation::GetBatteryLevel) {
            return Err(DriverError::UnsupportedOperation);
        }
        let message = self.seal(RazerMessageBuilder::get_battery_level());
        proof {
            lemma_same_padding(Command::GetBatteryLevel.arguments(self.var_store));
        }
        Ok(message)
    }

    /// The request that asks whether the device is charging.
    pub fn get_charging_status_request(&self) -> (r: Result<RazerMessage, DriverError>)
        ensures
            r is Ok <==> self.supports_spec(Operation::GetChargingStatus),
            self.plans(Command::GetChargingStatus, r),
    {
        if !self.supports(Operation::GetChargingStatus) {
            return Err(DriverError::UnsupportedOperation);
        }
        let message = self.seal(RazerMessageBuilder::get_charging_status());
        proof {
            lemma_same_padding(Command::GetChargingStatus.arguments(self.var_store));
        }
        Ok(message)
    }

    /// The request that sets the effect of the logo LED, in the persistent
    /// bank.
    pub fn chroma_logo_matrix_effect_request(&self, effect: ExtendedMatrixEffect) -> (r: Result<
        RazerMessage,
        DriverError,
    >)
        ensures
            r is Ok <==> self.supports_spec(Operation::ChromaLogoMatrixEffect),
            self.plans(Command::ChromaLogoMatrixEffect(effect), r),
    {
        if !self.supports(Operation::ChromaLogoMatrixEffect) {
            return Err(DriverError::UnsupportedOperation);
        }
        let message = self.seal(
            RazerMessageBuilder::chroma_extended_matrix_effect(
                VarStoreId::VarStore,
                LedId::Logo,
                effect,
            ),
        );
        proof {
            lemma_same_padding(Command::ChromaLogoMatrixEffect(effect).arguments(self.var_store));
        }
        Ok(message)
    }
}

/// A normal-only device that sets polling rates refuses every extended
/// rate as bad input, and takes every normal rate.
pub proof fn lemma_extended_rate_on_normal_device(
    profile: DeviceProfile,
    normal: crate::common::NormalPollingRate,
    extended: crate::common::ExtendedPollingRate,
)
    requires
        profile.supports_spec(Operation::SetPollingRate),
        profile.polling_rates.normal,
        !profile.polling_rates.extended,
    ensures
        profile.refusal(Command::SetPollingRate(PollingRate::Extended(extended))) == Some(
            DriverError::Validation(ValidationFailure::PollingRateKind),
        ),
        profile.refusal(Command::SetPollingRate(PollingRate::Normal(normal))) is None,
{
}

/// A refusal never touches the device: it is bad input or a missing
/// operation, never a failure of the transfer or of decoding.
pub proof fn lemma_refusal_is_local(profile: DeviceProfile, command: Command)
    ensures
        profile.refusal(command) matches Some(e) ==> e.is_local(),
{
}

/// Whatever a device lacks it refuses, whatever the arguments.
pub proof fn lemma_missing_operation_is_refused(profile: DeviceProfile, command: Command)
    requires
        !profile.supports_spec(command.operation()),
    ensures
        profile.refusal(command) == Some(DriverError::UnsupportedOperation),
        forall|r: Result<RazerMessage, DriverError>|
            profile.plans(command, r) ==> r == Err::<RazerMessage, DriverError>(
                DriverError::UnsupportedOperation,
            ),
{
}

/// Padding what is already padded changes nothing.
proof fn lemma_same_padding(prefix: Seq<u8>)
    ensures
        padded(Seq::new(80, |i: int| padded(prefix)[i])) == padded(prefix),
{
    assert(padded(Seq::new(80, |i: int| padded(prefix)[i])) =~= padded(prefix));
}

} // verus!
