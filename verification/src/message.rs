//! The report: the fixed record that carries every command and response,
//! its layout in bytes and its checksum.

use vstd::prelude::*;
use crate::common::{decode_u16_from_bytes, encode_u16_as_bytes, high_byte, low_byte};
use crate::error::{DriverError, ProtocolDecodeFailure};

verus! {

/// One report, as sent to the device or read back from it.
///
/// On the wire the fields follow each other without gaps: status at
/// offset 0, transaction id 1, remaining packets 2 and 3 (most significant
/// byte first), protocol type 4, data size 5, command class 6, command id 7,
/// the arguments 8 to 87, the checksum 88, a reserved byte 89.
#[derive(Clone, Copy, Debug, PartialEq, Eq)]
pub struct RazerMessage {
    pub status: u8,
    pub transaction_id: u8,
    pub remaining_packets: u16,
    pub protocol_type: u8,
    pub data_size: u8,
    pub command_class: u8,
    pub command_id: u8,
    pub arguments: [u8; 80],
    pub crc: u8,
    pub reserved: u8,
}

/// The fields of a command before it is sealed into a report.
#[derive(Clone, Copy, Debug, PartialEq, Eq)]
pub struct RazerMessageBuilder {
    pub transaction_id: u8,
    pub data_size: u8,
    pub command_class: u8,
    pub command_id: u8,
    pub arguments: [u8; 80],
}

/// The bytes of `bytes` combined with exclusive or, from the left.
pub open spec fn xor_fold(bytes: Seq<u8>) -> u8
    decreases bytes.len(),
{
    if bytes.len() == 0 {
        0
    } else {
        xor_fold(bytes.drop_last()) ^ bytes.last()
    }
}

/// The checksum of a report given as bytes: exclusive or over all bytes but
/// the first two and the last two.
pub open spec fn checksum(wire: Seq<u8>) -> u8 {
    xor_fold(wire.subrange(2, wire.len() - 2))
}

/// An argument area that starts with `prefix` and is zero after it.
pub open spec fn padded(prefix: Seq<u8>) -> Seq<u8> {
    Seq::new(80, |i: int| if i < prefix.len() { prefix[i] } else { 0u8 })
}

impl RazerMessage {
    /// The byte at offset `i` of the report on the wire.
    pub open spec fn byte_at(self, i: int) -> u8 {
        if i == 0 {
            self.status
        } else if i == 1 {
            self.transaction_id
        } else if i == 2 {
            high_byte(self.remaining_packets)
        } else if i == 3 {
            low_byte(self.remaining_packets)
        } else if i == 4 {
            self.protocol_type
        } else if i == 5 {
            self.data_size
        } else if i == 6 {
            self.command_class
        } else if i == 7 {
            self.command_id
        } else if i < 88 {
            self.arguments@[i - 8]
        } else if i == 88 {
            self.crc
        } else {
            self.reserved
        }
    }

    /// The report on the wire: 90 bytes.
    pub open spec fn wire(self) -> Seq<u8> {
        Seq::new(90, |i: int| self.byte_at(i))
    }

    /// True if the stored checksum is the checksum of the report.
    pub open spec fn sealed(self) -> bool {
        self.crc == checksum(self.wire())
    }

    /// The argument area.
    pub fn arguments(&self) -> (args: &[u8; 80])
        ensures
            *args == self.arguments,
    {
        &self.arguments
    }

    /// The report as the 90 bytes that go on the wire.
    pub fn encode(&self) -> (bytes: [u8; 90])
        ensures
            bytes@ == self.wire(),
    {
        let packets = encode_u16_as_bytes(self.remaining_packets);
        let mut bytes = [0u8; 90];
        bytes[0] = self.status;
        bytes[1] = self.transaction_id;
        bytes[2] = packets[0];
        bytes[3] = packets[1];
        bytes[4] = self.protocol_type;
        bytes[5] = self.data_size;
        bytes[6] = self.command_class;
        bytes[7] = self.command_id;
        bytes[88] = self.crc;
        bytes[89] = self.reserved;
        let mut i: usize = 0;
        while i < 80
            invariant
                i <= 80,
                forall|k: int| 0 <= k < 8 || 88 <= k < 90 ==> bytes@[k] == self.byte_at(k),
                forall|k: int| 8 <= k < 8 + i ==> bytes@[k] == self.byte_at(k),
            decreases 80 - i,
        {
            bytes[i + 8] = self.arguments[i];
            i += 1;
        }
        assert(bytes@ =~= self.wire());
        bytes
    }

    /// Reads a report from the bytes of a response. The only check is the
    /// size: the checksum of a response is not verified.
    pub fn decode(bytes: &[u8]) -> (r: Result<RazerMessage, DriverError>)
        ensures
            r is Ok <==> bytes@.len() == 90,
            r matches Ok(message) ==> message.wire() == bytes@,
            r matches Err(e) ==> e == DriverError::Decode(ProtocolDecodeFailure::ResponseSize),
    {
        if bytes.len() != 90 {
            return Err(DriverError::Decode(ProtocolDecodeFailure::ResponseSize));
        }
        let mut arguments = [0u8; 80];
        let mut i: usize = 0;
        while i < 80
            invariant
                i <= 80,
                bytes@.len() == 90,
                forall|k: int| 0 <= k < i ==> arguments@[k] == bytes@[k + 8],
            decreases 80 - i,
        {
            arguments[i] = bytes[i + 8];
            i += 1;
        }
        let packets = [bytes[2], bytes[3]];
        let message = RazerMessage {
            status: bytes[0],
            transaction_id: bytes[1],
            remaining_packets: decode_u16_from_bytes(&packets),
            protocol_type: bytes[4],
            data_size: bytes[5],
            command_class: bytes[6],
            command_id: bytes[7],
            arguments,
            crc: bytes[88],
            reserved: bytes[89],
        };
        proof {
            crate::common::lemma_be_bytes_of_value(bytes@[2], bytes@[3]);
            assert(message.wire() =~= bytes@);
        }
        Ok(message)
    }
}

impl RazerMessageBuilder {
    /// True if the builder holds exactly this command: the given class, id
    /// and data size, no transaction id yet, and arguments that start with
    /// `prefix` and are zero after it.
    pub open spec fn holds(self, class: u8, id: u8, size: u8, prefix: Seq<u8>) -> bool {
        &&& self.transaction_id == 0
        &&& self.data_size == size
        &&& self.command_class == class
        &&& self.command_id == id
        &&& self.arguments@ == padded(prefix)
    }

    /// The report with the builder's fields and everything else zero, the
    /// checksum included.
    pub open spec fn unsealed(self) -> RazerMessage {
        RazerMessage {
            status: 0,
            transaction_id: self.transaction_id,
            remaining_packets: 0,
            protocol_type: 0,
            data_size: self.data_size,
            command_class: self.command_class,
            command_id: self.command_id,
            arguments: self.arguments,
            crc: 0,
            reserved: 0,
        }
    }

    /// The report that `build` makes: the builder's fields, status and
    /// reserved zero, and the checksum of all that.
    pub open spec fn build_spec(self) -> RazerMessage {
        RazerMessage { crc: checksum(self.unsealed().wire()), ..self.unsealed() }
    }

    /// Seals the command into a report.
    pub fn build(self) -> (message: RazerMessage)
        ensures
            message == self.build_spec(),
            message.sealed(),
    {
        let mut result = RazerMessage {
            status: 0x00,
            transaction_id: self.transaction_id,
            remaining_packets: 0x0000,
            protocol_type: 0x00,
            data_size: self.data_size,
            command_class: self.command_class,
            command_id: self.command_id,
            arguments: self.arguments,
            crc: 0x00,
            reserved: 0x00,
        };
        assert(result == self.unsealed());
        result.crc = RazerMessageBuilder::calculate_crc(&result);
        proof {
            lemma_checksum_ignores_own_byte(self.unsealed(), result.crc);
        }
        result
    }

    /// The same command under the given transaction id.
    pub fn with_transaction_id(self, transaction_id: u8) -> (b: RazerMessageBuilder)
        ensures
            b == (RazerMessageBuilder { transaction_id, ..self }),
    {
        let mut b = self;
        b.transaction_id = transaction_id;
        b
    }

    /// The checksum of a report, whatever its checksum field holds.
    pub fn calculate_crc(report: &RazerMessage) -> (crc: u8)
        ensures
            crc == checksum(report.wire()),
    {
        let bytes = report.encode();
        let mut crc: u8 = 0;
        let mut i: usize = 2;
        while i < 88
            invariant
                2 <= i <= 88,
                bytes@.len() == 90,
                crc == xor_fold(bytes@.subrange(2, i as int)),
            decreases 88 - i,
        {
            assert(bytes@.subrange(2, i + 1).drop_last() =~= bytes@.subrange(2, i as int));
            crc = crc ^ bytes[i];
            i += 1;
        }
        crc
    }
}

impl Default for RazerMessageBuilder {
    /// The empty command: every field zero.
    fn default() -> (b: RazerMessageBuilder)
        ensures
            b.holds(0, 0, 0, Seq::empty()),
    {
        let b = RazerMessageBuilder {
            transaction_id: 0,
            data_size: 0,
            command_class: 0,
            command_id: 0,
            arguments: [0u8; 80],
        };
        assert(b.arguments@ =~= padded(Seq::empty()));
        b
    }
}

/// Replacing the byte at `i` changes the fold by the old byte and the new.
pub proof fn lemma_xor_fold_update(bytes: Seq<u8>, i: int, value: u8)
    requires
        0 <= i < bytes.len(),
    ensures
        xor_fold(bytes.update(i, value)) == xor_fold(bytes) ^ bytes[i] ^ value,
    decreases bytes.len(),
{
    let changed = bytes.update(i, value);
    let rest = xor_fold(bytes.drop_last());
    let old_byte = bytes[i];
    if i == bytes.len() - 1 {
        assert(changed.drop_last() =~= bytes.drop_last());
        assert(rest ^ value == (rest ^ old_byte) ^ old_byte ^ value) by (bit_vector);
    } else {
        assert(changed.drop_last() =~= bytes.drop_last().update(i, value));
        lemma_xor_fold_update(bytes.drop_last(), i, value);
        let last = bytes.last();
        assert((rest ^ old_byte ^ value) ^ last == (rest ^ last) ^ old_byte ^ value)
            by (bit_vector);
    }
}

/// Changing one byte inside the checksummed range changes the checksum.
pub proof fn lemma_checksum_detects_change(wire: Seq<u8>, i: int, value: u8)
    requires
        wire.len() == 90,
        2 <= i < 88,
        value != wire[i],
    ensures
        checksum(wire.update(i, value)) != checksum(wire),
{
    let inner = wire.subrange(2, 88);
    assert(wire.update(i, value).subrange(2, 88) =~= inner.update(i - 2, value));
    lemma_xor_fold_update(inner, i - 2, value);
    let fold = xor_fold(inner);
    let old_byte = wire[i];
    assert(fold ^ old_byte ^ value != fold) by (bit_vector)
        requires
            value != old_byte,
    ;
}

/// Changing a byte outside the checksummed range (status, transaction id,
/// checksum, reserved) leaves the checksum as it was.
pub proof fn lemma_checksum_ignores_edges(wire: Seq<u8>, i: int, value: u8)
    requires
        wire.len() == 90,
        0 <= i < 2 || 88 <= i < 90,
    ensures
        checksum(wire.update(i, value)) == checksum(wire),
{
    assert(wire.update(i, value).subrange(2, 88) =~= wire.subrange(2, 88));
}

/// The checksum of a report does not depend on its checksum field, nor on
/// its status, transaction id or reserved byte.
pub proof fn lemma_checksum_ignores_own_byte(message: RazerMessage, crc: u8)
    ensures
        checksum((RazerMessage { crc, ..message }).wire()) == checksum(message.wire()),
{
    let other = RazerMessage { crc, ..message };
    assert(other.wire().subrange(2, 88) =~= message.wire().subrange(2, 88));
}

/// Two reports with the same bytes on the wire are the same report: what
/// `decode` reads from the bytes of `encode` is the report that was encoded.
pub proof fn lemma_wire_injective(a: RazerMessage, b: RazerMessage)
    requires
        a.wire() == b.wire(),
    ensures
        a == b,
{
    assert forall|k: int| 0 <= k < 90 implies a.byte_at(k) == b.byte_at(k) by {
        assert(a.wire()[k] == a.byte_at(k));
        assert(b.wire()[k] == b.byte_at(k));
    }
    assert(a.byte_at(0) == b.byte_at(0));
    assert(a.byte_at(1) == b.byte_at(1));
    assert(a.byte_at(2) == b.byte_at(2));
    assert(a.byte_at(3) == b.byte_at(3));
    assert(a.byte_at(4) == b.byte_at(4));
    assert(a.byte_at(5) == b.byte_at(5));
    assert(a.byte_at(6) == b.byte_at(6));
    assert(a.byte_at(7) == b.byte_at(7));
    assert(a.byte_at(88) == b.byte_at(88));
    assert(a.byte_at(89) == b.byte_at(89));
    crate::common::lemma_be_value_of_bytes(a.remaining_packets);
    crate::common::lemma_be_value_of_bytes(b.remaining_packets);
    assert forall|k: int| 0 <= k < 80 implies a.arguments@[k] == b.arguments@[k] by {
        assert(a.byte_at(k + 8) == b.byte_at(k + 8));
    }
    assert(a.arguments =~= b.arguments);
}

/// Sealing is a function of the fields: equal commands give equal reports,
/// checksum included.
pub proof fn lemma_build_deterministic(a: RazerMessageBuilder, b: RazerMessageBuilder)
    requires
        a.transaction_id == b.transaction_id,
        a.data_size == b.data_size,
        a.command_class == b.command_class,
        a.command_id == b.command_id,
        a.arguments@ == b.arguments@,
    ensures
        a.build_spec() == b.build_spec(),
        a.build_spec().crc == b.build_spec().crc,
{
    assert(a.arguments =~= b.arguments);
}

} // verus!
