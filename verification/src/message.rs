//! Assembly of the 4-byte radio frame: sensor ID, battery status and encoded
//! temperature, followed by the whitening checksum of the first three bytes.

use vstd::prelude::*;
use crate::checksum::{hash_spec, lfsr_hash, lfsr_sequence, lfsr_table, LFSR_SEED};

verus! {

/// Number of whitening-table entries the protocol's checksum uses. Together
/// with the offset this is a protocol constant of the targeted receiver, not
/// a free choice: other receivers in this protocol family use other sizes.
pub const CHECKSUM_TABLE_SIZE: usize = 28;

/// Offset into the whitening table at which the checksum fold starts.
pub const CHECKSUM_OFFSET: usize = 4;

/// The three payload bytes before the checksum: ID, then the status nibble
/// over the high temperature nibble, then the low temperature byte.
pub open spec fn frame_body(id: u8, battery_ok: bool, temperature: i16) -> Seq<u8> {
    let status: int = if battery_ok { 8 } else { 0 };
    seq![
        id,
        (status * 16 + ((temperature as int / 256) % 16)) as u8,
        (temperature as int % 256) as u8,
    ]
}

/// The full frame: the payload bytes and their checksum.
pub open spec fn frame_spec(id: u8, battery_ok: bool, temperature: i16) -> Seq<u8> {
    let body = frame_body(id, battery_ok, temperature);
    body.push(hash_spec(body, lfsr_table(LFSR_SEED, CHECKSUM_TABLE_SIZE as nat), CHECKSUM_OFFSET as int))
}

/// Build the frame for one transmission: ID, battery status, temperature in
/// decimal tenths of a degree, and the protocol checksum.
pub fn generate(id: u8, battery_ok: bool, temperature: i16) -> (frame: [u8; 4])
    ensures
        frame@ == frame_spec(id, battery_ok, temperature),
{
    let status: u8 = if battery_ok {
        0b1000
    } else {
        0b0000
    };
    let high = #[verifier::truncate] ((temperature >> 8) as u8);
    let b1 = status << 4 | (high & 0x0f);
    let b2 = #[verifier::truncate] ((temperature & 0xff) as u8);
    proof {
        assert(status << 4 | (#[verifier::truncate] ((temperature >> 8) as u8) & 0x0f)
            == status * 16 + ((temperature as int / 256) % 16)) by (bit_vector)
            requires
                status == 8 || status == 0,
        ;
        assert(#[verifier::truncate] ((temperature & 0xff) as u8) == temperature as int % 256)
            by (bit_vector);
    }
    let body: Vec<u8> = vec![id, b1, b2];
    let table = lfsr_sequence(CHECKSUM_TABLE_SIZE);
    let hash = lfsr_hash(body.as_slice(), table.as_slice(), CHECKSUM_OFFSET);
    let frame = [id, b1, b2, hash];
    proof {
        assert(body@ =~= frame_body(id, battery_ok, temperature));
        assert(frame@ =~= frame_spec(id, battery_ok, temperature));
    }
    frame
}

} // verus!
