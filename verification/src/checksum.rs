//! Whitening-table generation and the XOR-fold checksum of the radio protocol.
//!
//! The table is produced by an 8-bit linear-feedback shift register started
//! from a fixed seed; the checksum folds table entries into an accumulator,
//! one entry for every set payload bit.

use vstd::prelude::*;

verus! {

/// Seed the shift register starts from for this protocol's table.
pub const LFSR_SEED: u8 = 0x7C;

/// One step of the shift register: rotate right by one bit and, when the bit
/// that wrapped around is set, fold the tap mask `0x18` back in.
pub open spec fn lfsr_step(reg: u8) -> u8 {
    if reg & 1 == 1 {
        (((reg >> 1) | 0x80) ^ 0x18) as u8
    } else {
        (reg >> 1) as u8
    }
}

/// Register contents after `i` steps from a seed.
pub open spec fn lfsr_reg(seed: u8, i: nat) -> u8
    decreases i,
{
    if i == 0 {
        seed
    } else {
        lfsr_step(lfsr_reg(seed, (i - 1) as nat))
    }
}

/// The whitening table of length `n` from a seed: entry `i` records the
/// register after `i + 1` steps.
pub open spec fn lfsr_table(seed: u8, n: nat) -> Seq<u8> {
    Seq::new(n, |i: int| lfsr_reg(seed, (i + 1) as nat))
}

/// The other tap convention found in this protocol's lineage: rotate right
/// first, then test the high bit of the rotated value.
pub open spec fn lfsr_step_rotated(reg: u8) -> u8 {
    let rotated = ((reg >> 1) | ((reg & 1) << 7)) as u8;
    if rotated & 0x80 == 0x80 {
        (rotated ^ 0x18) as u8
    } else {
        rotated
    }
}

/// The two tap conventions step the register identically: the bit that the
/// rotation wraps into the high position is exactly the bit shifted out.
pub proof fn lemma_tap_conventions_agree(reg: u8)
    ensures
        lfsr_step_rotated(reg) == lfsr_step(reg),
{
    assert(lfsr_step_rotated(reg) == lfsr_step(reg)) by (bit_vector);
}

/// Register contents after `i` steps under the rotate-then-test convention.
pub open spec fn lfsr_reg_rotated(seed: u8, i: nat) -> u8
    decreases i,
{
    if i == 0 {
        seed
    } else {
        lfsr_step_rotated(lfsr_reg_rotated(seed, (i - 1) as nat))
    }
}

/// The whitening table under the rotate-then-test convention.
pub open spec fn lfsr_table_rotated(seed: u8, n: nat) -> Seq<u8> {
    Seq::new(n, |i: int| lfsr_reg_rotated(seed, (i + 1) as nat))
}

proof fn lemma_reg_conventions_agree(seed: u8, i: nat)
    ensures
        lfsr_reg_rotated(seed, i) == lfsr_reg(seed, i),
    decreases i,
{
    if i > 0 {
        lemma_reg_conventions_agree(seed, (i - 1) as nat);
        lemma_tap_conventions_agree(lfsr_reg(seed, (i - 1) as nat));
    }
}

/// The two tap conventions record the same whitening table, from every seed
/// and for every size: only one convention needs to be kept.
pub proof fn lemma_tap_conventions_same_table(seed: u8, n: nat)
    ensures
        lfsr_table_rotated(seed, n) == lfsr_table(seed, n),
{
    assert forall|j: int| 0 <= j < n implies lfsr_table_rotated(seed, n)[j] == lfsr_table(
        seed,
        n,
    )[j] by {
        lemma_reg_conventions_agree(seed, (j + 1) as nat);
    }
    assert(lfsr_table_rotated(seed, n) =~= lfsr_table(seed, n));
}

/// Build a whitening table of `n` entries from an arbitrary seed.
pub fn lfsr_sequence_from(seed: u8, n: usize) -> (table: Vec<u8>)
    ensures
        table@ == lfsr_table(seed, n as nat),
{
    let mut reg: u8 = seed;
    let mut sequence: Vec<u8> = Vec::new();
    let mut i: usize = 0;
    while i < n
        invariant
            i <= n,
            reg == lfsr_reg(seed, i as nat),
            sequence@ == lfsr_table(seed, i as nat),
        decreases n - i,
    {
        let carry = reg & 1;
        reg = reg >> 1;
        if carry == 1 {
            reg = (reg | 0x80) ^ 0x18;
        }
        sequence.push(reg);
        i = i + 1;
        proof {
            assert(sequence@ =~= lfsr_table(seed, i as nat));
        }
    }
    proof {
        assert(sequence@ =~= lfsr_table(seed, n as nat));
    }
    sequence
}

/// Build the whitening table of `n` entries from the protocol's seed.
pub fn lfsr_sequence(n: usize) -> (table: Vec<u8>)
    ensures
        table@ == lfsr_table(LFSR_SEED, n as nat),
{
    lfsr_sequence_from(LFSR_SEED, n)
}

/// Bit `p` of the payload, counted most-significant-bit first and
/// continuously across bytes.
pub open spec fn data_bit(data: Seq<u8>, p: int) -> bool {
    (data[p / 8] >> ((7 - (p % 8)) as u8)) & 1 == 1
}

/// Accumulator after folding the first `k` payload bits: for every set bit at
/// position `p`, the table entry at `p + offset` is XORed in.
pub open spec fn hash_fold(data: Seq<u8>, table: Seq<u8>, offset: int, k: nat) -> u8
    decreases k,
{
    if k == 0 {
        0
    } else {
        let prev = hash_fold(data, table, offset, (k - 1) as nat);
        if data_bit(data, k - 1) {
            (prev ^ table[k - 1 + offset]) as u8
        } else {
            prev
        }
    }
}

/// The checksum byte: the fold over all bits of the payload.
pub open spec fn hash_spec(data: Seq<u8>, table: Seq<u8>, offset: int) -> u8 {
    hash_fold(data, table, offset, (data.len() * 8) as nat)
}

/// Fold the whitening table against a payload to produce the checksum byte.
/// The table must cover every bit position of the payload past the offset.
pub fn lfsr_hash(data: &[u8], table: &[u8], offset: usize) -> (hash: u8)
    requires
        data@.len() * 8 + offset <= table@.len(),
    ensures
        hash == hash_spec(data@, table@, offset as int),
{
    let mut hash_reg: u8 = 0;
    let mut byte_idx: usize = 0;
    while byte_idx < data.len()
        invariant
            byte_idx <= data@.len(),
            data@.len() * 8 + offset <= table@.len(),
            hash_reg == hash_fold(data@, table@, offset as int, (byte_idx * 8) as nat),
        decreases data@.len() - byte_idx,
    {
        let byte = data[byte_idx];
        let mut bit_idx: usize = 0;
        while bit_idx < 8
            invariant
                bit_idx <= 8,
                byte_idx < data@.len(),
                data@.len() * 8 + offset <= table@.len(),
                byte == data@[byte_idx as int],
                hash_reg == hash_fold(data@, table@, offset as int,
                    (byte_idx * 8 + bit_idx) as nat),
            decreases 8 - bit_idx,
        {
            let bit = (byte >> (7 - bit_idx) as u8) & 1 == 1;
            proof {
                let p = byte_idx * 8 + bit_idx;
                assert(p / 8 == byte_idx && p % 8 == bit_idx) by (nonlinear_arith)
                    requires
                        p == byte_idx * 8 + bit_idx,
                        bit_idx < 8,
                ;
                assert(byte_idx * 8 + bit_idx < data@.len() * 8) by (nonlinear_arith)
                    requires
                        byte_idx < data@.len(),
                        bit_idx < 8,
                ;
                assert(byte_idx * 8 + bit_idx + offset < table@.len());
                assert(table@.len() == table.len());
            }
            if bit {
                hash_reg = hash_reg ^ table[byte_idx * 8 + bit_idx + offset];
            }
            bit_idx = bit_idx + 1;
        }
        byte_idx = byte_idx + 1;
    }
    hash_reg
}

/// The whitening table is deterministic: for every seed and size, any two
/// tables built with the same parameters hold the same entries.
pub proof fn lemma_table_deterministic(first: Seq<u8>, second: Seq<u8>, seed: u8, n: nat)
    requires
        first == lfsr_table(seed, n),
        second == lfsr_table(seed, n),
    ensures
        first == second,
{
}

/// A payload with no set bits folds nothing: its checksum is zero for every
/// table and every offset.
pub proof fn lemma_hash_zero_payload(data: Seq<u8>, table: Seq<u8>, offset: int)
    requires
        forall|i: int| 0 <= i < data.len() ==> data[i] == 0,
    ensures
        hash_spec(data, table, offset) == 0,
{
    lemma_hash_fold_zero(data, table, offset, (data.len() * 8) as nat);
}

proof fn lemma_hash_fold_zero(data: Seq<u8>, table: Seq<u8>, offset: int, k: nat)
    requires
        forall|i: int| 0 <= i < data.len() ==> data[i] == 0,
        k <= data.len() * 8,
    ensures
        hash_fold(data, table, offset, k) == 0,
    decreases k,
{
    if k > 0 {
        lemma_hash_fold_zero(data, table, offset, (k - 1) as nat);
        let p = k - 1;
        assert(0 <= p / 8 < data.len()) by (nonlinear_arith)
            requires
                0 <= p < data.len() * 8,
        ;
        let sh = (7 - (p % 8)) as u8;
        assert((0u8 >> sh) & 1 == 0) by (bit_vector);
    }
}

} // verus!
