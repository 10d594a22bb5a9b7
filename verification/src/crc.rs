//! CRC-16/MCRF4XX, the checksum MAVLink frames carry. The router forwards
//! checksums as opaque bytes and never validates them — it must pass dialects
//! whose extra CRC seed it does not know — so this computation serves only
//! diagnostics and tests.

use vstd::prelude::*;

verus! {

/// One shift round of the bit-reflected polynomial 0x8408.
pub open spec fn crc_round(c: u16) -> u16 {
    if c & 1 != 0 {
        (c >> 1) ^ 0x8408
    } else {
        c >> 1
    }
}

/// `n` shift rounds applied to `c`.
pub open spec fn crc_rounds(c: u16, n: nat) -> u16
    decreases n,
{
    if n == 0 {
        c
    } else {
        crc_round(crc_rounds(c, (n - 1) as nat))
    }
}

/// The lookup-table entry for a byte: eight shift rounds on its value.
pub open spec fn crc_table_entry(i: u8) -> u16 {
    crc_rounds(i as u16, 8)
}

/// Folding one byte into a running checksum.
pub open spec fn crc_step(crc: u16, byte: u8) -> u16 {
    (crc >> 8) ^ crc_table_entry(byte ^ (crc as u8))
}

/// The checksum of a byte sequence, folded left from the seed 0xFFFF.
pub open spec fn crc16(s: Seq<u8>) -> u16
    decreases s.len(),
{
    if s.len() == 0 {
        0xFFFF
    } else {
        crc_step(crc16(s.drop_last()), s.last())
    }
}

/// Build the 256-entry lookup table for the per-byte fold.
pub fn generate_crc_table() -> (t: Vec<u16>)
    ensures
        t@.len() == 256,
        forall|i: int| 0 <= i < 256 ==> #[trigger] t@[i] == crc_table_entry(i as u8),
{
    let mut table: Vec<u16> = Vec::new();
    let mut i: usize = 0;
    while i < 256
        invariant
            i <= 256,
            table@.len() == i,
            forall|k: int| 0 <= k < i ==> #[trigger] table@[k] == crc_table_entry(k as u8),
        decreases 256 - i,
    {
        let mut crc: u16 = i as u16;
        let mut j: usize = 0;
        while j < 8
            invariant
                j <= 8,
                i < 256,
                crc == crc_rounds(i as u16, j as nat),
            decreases 8 - j,
        {
            if (crc & 1) != 0 {
                crc = (crc >> 1) ^ 0x8408;
            } else {
                crc = crc >> 1;
            }
            j = j + 1;
        }
        table.push(crc);
        i = i + 1;
    }
    table
}

/// The checksum of `buf`, computed with the lookup table.
pub fn calculate_crc(buf: &[u8]) -> (r: u16)
    ensures
        r == crc16(buf@),
{
    let table = generate_crc_table();
    let mut crc: u16 = 0xFFFF;
    let mut i: usize = 0;
    proof {
        assert(buf@.take(0) =~= Seq::<u8>::empty());
    }
    while i < buf.len()
        invariant
            i <= buf@.len(),
            table@.len() == 256,
            forall|k: int| 0 <= k < 256 ==> #[trigger] table@[k] == crc_table_entry(k as u8),
            crc == crc16(buf@.take(i as int)),
        decreases buf@.len() - i,
    {
        let byte = buf[i];
        let tmp = byte ^ (crc as u8);
        crc = (crc >> 8) ^ table[tmp as usize];
        proof {
            assert(buf@.take(i + 1).drop_last() =~= buf@.take(i as int));
            assert(buf@.take(i + 1).last() == buf@[i as int]);
        }
        i = i + 1;
    }
    proof {
        assert(buf@.take(buf@.len() as int) =~= buf@);
    }
    crc
}

} // verus!
