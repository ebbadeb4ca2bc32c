//! Encoder for the synthesizer's checksummed System Exclusive dialect.
//!
//! A frame is laid out as
//! `0xF0, 0x41, <device id>, 0x42, 0x12, <3 address bytes>, <data...>,
//! <checksum>, 0xF7`, where `0xF0`/`0xF7` are the SysEx start and end
//! markers, `0x41` the manufacturer id, `0x42` the model id and `0x12` the
//! command id. The checksum makes the sum of the address bytes, the data
//! bytes and the checksum itself a multiple of 0x80, and is always a
//! seven-bit value.

use vstd::arithmetic::div_mod::lemma_add_mod_noop;
use vstd::prelude::*;

use crate::mfx::mfx_value;
use crate::mfx::MFXType;

verus! {

/// Sum of all bytes of a sequence, as an unbounded integer.
pub open spec fn byte_sum(s: Seq<u8>) -> int
    decreases s.len(),
{
    if s.len() == 0 {
        0
    } else {
        byte_sum(s.drop_last()) + s.last()
    }
}

/// A byte sum is never negative.
pub proof fn lemma_byte_sum_nonneg(s: Seq<u8>)
    ensures
        byte_sum(s) >= 0,
    decreases s.len(),
{
    if s.len() > 0 {
        lemma_byte_sum_nonneg(s.drop_last());
    }
}

/// The checksum byte that closes a frame over the given address and data:
/// the additive complement of their byte sums modulo 0x80, normalized to a
/// seven-bit value.
pub open spec fn checksum_of(address: Seq<u8>, data: Seq<u8>) -> u8 {
    (((0x80 - (byte_sum(address) + byte_sum(data)) % 0x80) % 0x80) as u8)
}

/// The complete wire frame for one parameter write: fixed header, address,
/// data, checksum and the end-of-exclusive marker.
pub open spec fn frame_spec(device_id: u8, address: Seq<u8>, data: Seq<u8>) -> Seq<u8> {
    seq![0xf0u8, 0x41u8, device_id, 0x42u8, 0x12u8] + address + data + seq![
        checksum_of(address, data),
        0xf7u8,
    ]
}

/// Law: for every device id, three-byte address and data payload, the
/// encoded frame has length `8 + data.len() + 2`, starts with the SysEx
/// start marker and ends with the end-of-exclusive marker, and its checksum
/// cancels the address and data sums modulo 0x80.
pub proof fn lemma_frame_well_formed(device_id: u8, address: Seq<u8>, data: Seq<u8>)
    requires
        address.len() == 3,
    ensures
        frame_spec(device_id, address, data).len() == 8 + data.len() + 2,
        frame_spec(device_id, address, data)[0] == 0xf0,
        frame_spec(device_id, address, data).last() == 0xf7,
        (byte_sum(address) + byte_sum(data) + checksum_of(address, data)) % 0x80 == 0,
{
    lemma_byte_sum_nonneg(address);
    lemma_byte_sum_nonneg(data);
    let s = byte_sum(address) + byte_sum(data);
    let c = checksum_of(address, data) as int;
    lemma_add_mod_noop(s, c, 0x80);
    assert((s % 0x80 + c % 0x80) % 0x80 == 0);
}

/// Encoder for the checksummed SysEx dialect, fixed to one device id.
#[derive(Copy, Clone, Debug)]
pub struct RolandSysEx {
    pub device_id: u8,
}

impl RolandSysEx {
    /// An encoder whose frames address the device with the given id.
    pub fn new(device_id: u8) -> (r: Self)
        ensures
            r.device_id == device_id,
    {
        Self { device_id }
    }

    /// Encode one parameter write: the fixed header, the three address
    /// bytes, the data payload, the checksum and the end marker.
    pub fn data(&self, address: &[u8; 3], data: &[u8]) -> (msg: Vec<u8>)
        ensures
            msg@ == frame_spec(self.device_id, address@, data@),
    {
        let mut msg: Vec<u8> = Vec::new();
        msg.push(0xf0);
        msg.push(0x41);
        msg.push(self.device_id);
        msg.push(0x42);
        msg.push(0x12);
        msg.push(address[0]);
        msg.push(address[1]);
        msg.push(address[2]);

        let mut sum: u8 = ((address[0] as u16 + address[1] as u16 + address[2] as u16) % 0x80)
            as u8;
        proof {
            let a = address@;
            assert(byte_sum(a) == a[0] + a[1] + a[2]) by {
                reveal_with_fuel(byte_sum, 4);
            }
        }

        let mut i: usize = 0;
        while i < data.len()
            invariant
                i <= data@.len(),
                sum < 0x80,
                sum as int == (byte_sum(address@) + byte_sum(data@.take(i as int))) % 0x80,
                msg@ == seq![0xf0u8, 0x41u8, self.device_id, 0x42u8, 0x12u8] + address@
                    + data@.take(i as int),
            decreases data@.len() - i,
        {
            let b = data[i];
            msg.push(b);
            proof {
                assert(data@.take(i + 1).drop_last() =~= data@.take(i as int));
                assert(byte_sum(data@.take(i + 1)) == byte_sum(data@.take(i as int)) + b);
                lemma_byte_sum_nonneg(address@);
                lemma_byte_sum_nonneg(data@.take(i as int));
                lemma_add_mod_noop(
                    byte_sum(address@) + byte_sum(data@.take(i as int)),
                    b as int,
                    0x80,
                );
            }
            sum = ((sum as u16 + b as u16) % 0x80) as u8;
            i = i + 1;
        }

        let checksum: u8 = (0x80 - sum) % 0x80;
        proof {
            assert(data@.take(data@.len() as int) =~= data@);
        }
        msg.push(checksum);
        msg.push(0xf7);
        proof {
            assert(msg@ =~= frame_spec(self.device_id, address@, data@));
        }
        msg
    }

    /// Encode the frame that enables or disables the multi-effect unit for
    /// one part number; the middle address byte is 0x40 plus the part.
    pub fn enable_mfx(&self, part: u8, enable: bool) -> (msg: Vec<u8>)
        requires
            part <= 0xbf,
        ensures
            msg@ == frame_spec(
                self.device_id,
                seq![0x40u8, (0x40 + part) as u8, 0x22u8],
                seq![if enable { 1u8 } else { 0u8 }],
            ),
    {
        let value: u8 = if enable {
            0x01
        } else {
            0x00
        };
        let msg = self.data(&[0x40, 0x40 + part, 0x22], &[value]);
        proof {
            assert([0x40u8, (0x40 + part) as u8, 0x22u8]@ =~= seq![
                0x40u8,
                (0x40 + part) as u8,
                0x22u8,
            ]);
            assert([value]@ =~= seq![if enable { 1u8 } else { 0u8 }]);
        }
        msg
    }

    /// Encode the frame that selects the multi-effect type, writing the
    /// catalog's two-byte value at the fixed effect-type address.
    pub fn set_mfx_type(&self, mode: MFXType) -> (msg: Vec<u8>)
        ensures
            msg@ == frame_spec(self.device_id, seq![0x40u8, 0x03u8, 0x00u8], mfx_value(mode)),
    {
        let value = mode.value();
        let msg = self.data(&[0x40, 0x03, 0x00], &value);
        proof {
            assert([0x40u8, 0x03u8, 0x00u8]@ =~= seq![0x40u8, 0x03u8, 0x00u8]);
        }
        msg
    }
}

} // verus!
