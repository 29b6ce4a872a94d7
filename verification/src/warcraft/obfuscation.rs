//! The byte packing that keeps zero bytes out of the variable part of a
//! game-info packet.
//!
//! The packed stream is cut into groups of eight bytes. The first byte of a
//! group is a mask; bit `i` of the mask belongs to the byte at place `i` of
//! the group. A byte whose bit is set stands for itself, one whose bit is
//! clear stands for the byte one smaller. The stream ends at its first zero
//! byte.

use vstd::prelude::*;
use crate::warcraft::text::has_no_nul_from;
use crate::warcraft::text::lemma_first_nul_is_nul_index;
use crate::warcraft::text::lemma_nul_index;
use crate::warcraft::text::lemma_nul_index_of_agreeing;
use crate::warcraft::text::nul_index;

verus! {

/// How many plain bytes a packed stream of `packed` bytes holds: all but the
/// mask bytes, of which there is one at every eighth place from the first.
pub open spec fn unpacked_len(packed: int) -> int {
    packed - (packed + 7) / 8
}

/// The place in the packed stream of the plain byte number `k`.
pub open spec fn packed_index(k: int) -> int {
    k + k / 7 + 1
}

/// Bit `bit` of `mask` is set.
pub open spec fn mask_bit_set(mask: u8, bit: u8) -> bool {
    mask & (1u8 << bit) != 0
}

/// The plain byte that the byte at place `p` of the packed stream stands for.
pub open spec fn unpacked_byte(data: Seq<u8>, p: int) -> u8 {
    if mask_bit_set(data[p - p % 8], (p % 8) as u8) {
        data[p]
    } else {
        (data[p] - 1) as u8
    }
}

/// The plain bytes of the packed stream that `data` begins with. The stream
/// runs up to the first zero byte of `data`.
pub open spec fn unpack(data: Seq<u8>) -> Seq<u8> {
    Seq::new(
        unpacked_len(nul_index(data, 0)) as nat,
        |k: int| unpacked_byte(data, packed_index(k)),
    )
}

/// `packed` is a packed form of `plain`: it holds no zero byte, and each of
/// its bytes that is no mask is the plain byte where its mask bit is set and
/// the plain byte plus one where the bit is clear.
pub open spec fn is_packing_of(packed: Seq<u8>, plain: Seq<u8>) -> bool {
    &&& has_no_nul_from(packed, 0)
    &&& plain.len() == unpacked_len(packed.len() as int)
    &&& forall|k: int|
        0 <= k < plain.len() ==> {
            let p = packed_index(k);
            if mask_bit_set(packed[p - p % 8], (p % 8) as u8) {
                packed[p] == #[trigger] plain[k]
            } else {
                packed[p] == plain[k] + 1
            }
        }
}

/// How many bytes the packed form of `plain` bytes takes: the bytes, and one
/// mask before every seven of them.
pub open spec fn packed_len(plain: int) -> int {
    plain + (plain + 6) / 7
}

/// The mask bit of the plain byte number `k` in the plain packed form: set
/// where there is such a byte and it is not zero.
pub open spec fn kept_bit(plain: Seq<u8>, k: int) -> u8 {
    if 0 <= k < plain.len() && plain[k] != 0 {
        1
    } else {
        0
    }
}

/// The mask before the plain bytes `7 * group` to `7 * group + 6` in the
/// plain packed form. Its lowest bit, which belongs to the mask itself, is
/// set, so that no mask is zero.
pub open spec fn mask_of(plain: Seq<u8>, group: int) -> u8 {
    let k = 7 * group;
    1u8 | (kept_bit(plain, k) << 1u8) | (kept_bit(plain, k + 1) << 2u8) | (kept_bit(plain, k + 2)
        << 3u8) | (kept_bit(plain, k + 3) << 4u8) | (kept_bit(plain, k + 4) << 5u8) | (kept_bit(
        plain,
        k + 5,
    ) << 6u8) | (kept_bit(plain, k + 6) << 7u8)
}

/// The plain packed form of `plain`: a zero byte is written as one with its
/// mask bit clear, every other byte as itself with its mask bit set.
pub open spec fn pack(plain: Seq<u8>) -> Seq<u8> {
    Seq::new(
        packed_len(plain.len() as int) as nat,
        |p: int|
            if p % 8 == 0 {
                mask_of(plain, p / 8)
            } else if plain[p - p / 8 - 1] == 0 {
                1u8
            } else {
                plain[p - p / 8 - 1]
            },
    )
}

/// A mask made of seven bits and the lowest bit holds each bit at its place,
/// and is not zero.
proof fn lemma_mask_bits(b1: u8, b2: u8, b3: u8, b4: u8, b5: u8, b6: u8, b7: u8, place: u8)
    by (bit_vector)
    requires
        b1 <= 1,
        b2 <= 1,
        b3 <= 1,
        b4 <= 1,
        b5 <= 1,
        b6 <= 1,
        b7 <= 1,
        1 <= place <= 7,
    ensures
        (1u8 | (b1 << 1u8) | (b2 << 2u8) | (b3 << 3u8) | (b4 << 4u8) | (b5 << 5u8) | (b6 << 6u8) | (
        b7 << 7u8)) != 0,
        ((1u8 | (b1 << 1u8) | (b2 << 2u8) | (b3 << 3u8) | (b4 << 4u8) | (b5 << 5u8) | (b6 << 6u8)
            | (b7 << 7u8)) & (1u8 << place) != 0) == (if place == 1 {
            b1 == 1
        } else if place == 2 {
            b2 == 1
        } else if place == 3 {
            b3 == 1
        } else if place == 4 {
            b4 == 1
        } else if place == 5 {
            b5 == 1
        } else if place == 6 {
            b6 == 1
        } else {
            b7 == 1
        }),
{
}

/// The plain packed form is a packed form.
pub proof fn lemma_pack_is_packing(plain: Seq<u8>)
    ensures
        is_packing_of(pack(plain), plain),
{
    let packed = pack(plain);
    assert forall|p: int| 0 <= p < packed.len() implies packed[p] != 0 by {
        if p % 8 == 0 {
            let k = 7 * (p / 8);
            lemma_mask_bits(
                kept_bit(plain, k),
                kept_bit(plain, k + 1),
                kept_bit(plain, k + 2),
                kept_bit(plain, k + 3),
                kept_bit(plain, k + 4),
                kept_bit(plain, k + 5),
                kept_bit(plain, k + 6),
                1,
            );
        }
    }
    assert forall|k: int| 0 <= k < plain.len() implies ({
        let p = packed_index(k);
        if mask_bit_set(packed[p - p % 8], (p % 8) as u8) {
            packed[p] == #[trigger] plain[k]
        } else {
            packed[p] == plain[k] + 1
        }
    }) by {
        let p = packed_index(k);
        let first = 7 * (k / 7);
        assert(p % 8 == k % 7 + 1);
        assert(p - p % 8 == 8 * (k / 7));
        assert(p - p / 8 - 1 == k);
        assert(packed[p - p % 8] == mask_of(plain, k / 7));
        lemma_mask_bits(
            kept_bit(plain, first),
            kept_bit(plain, first + 1),
            kept_bit(plain, first + 2),
            kept_bit(plain, first + 3),
            kept_bit(plain, first + 4),
            kept_bit(plain, first + 5),
            kept_bit(plain, first + 6),
            (p % 8) as u8,
        );
    }
}

/// Unpacking the plain packed form of a payload gives the payload back,
/// whatever follows the terminating zero.
pub proof fn lemma_unpack_pack(plain: Seq<u8>, rest: Seq<u8>)
    ensures
        unpack(pack(plain) + seq![0u8] + rest) == plain,
{
    lemma_pack_is_packing(plain);
    lemma_unpack_inverts_packing(pack(plain), plain, rest);
}

/// Unpacking gives the payload back: where `packed` is a packed form of
/// `plain`, a buffer that holds `packed`, the terminating zero and anything
/// after it unpacks to `plain`.
pub proof fn lemma_unpack_inverts_packing(packed: Seq<u8>, plain: Seq<u8>, rest: Seq<u8>)
    requires
        is_packing_of(packed, plain),
    ensures
        unpack(packed + seq![0u8] + rest) == plain,
{
    let data = packed + seq![0u8] + rest;
    let n = packed.len() as int;
    assert(data[n] == 0);
    assert forall|j: int| 0 <= j < n implies data[j] != 0 by {
        assert(data[j] == packed[j]);
    }
    lemma_first_nul_is_nul_index(data, 0, n);
    assert forall|k: int| 0 <= k < plain.len() implies unpacked_byte(data, packed_index(k))
        == plain[k] by {
        let p = packed_index(k);
        assert(0 < p < n);
        assert(data[p] == packed[p]);
        assert(data[p - p % 8] == packed[p - p % 8]);
    }
    assert(unpack(data) =~= plain);
}

/// A packed stream is read from the bytes up to its terminator alone.
pub proof fn lemma_unpack_of_agreeing(a: Seq<u8>, b: Seq<u8>)
    requires
        nul_index(a, 0) < a.len(),
        nul_index(a, 0) < b.len(),
        forall|j: int| 0 <= j <= nul_index(a, 0) ==> a[j] == b[j],
    ensures
        nul_index(b, 0) == nul_index(a, 0),
        unpack(b) == unpack(a),
{
    lemma_nul_index(a, 0);
    lemma_nul_index_of_agreeing(a, b, 0);
    let end = nul_index(a, 0);
    assert forall|k: int| 0 <= k < unpacked_len(end) implies unpacked_byte(b, packed_index(k))
        == unpacked_byte(a, packed_index(k)) by {
        let p = packed_index(k);
        assert(0 < p < end);
        assert(0 <= p - p % 8 < end);
    }
    assert(unpack(b) =~= unpack(a));
}

/// Unpacks the stream that `data` begins with. There is no result when no
/// zero byte ends the stream.
pub fn decrypt(data: &[u8]) -> (plain: Option<Vec<u8>>)
    ensures
        plain is Some <==> nul_index(data@, 0) < data@.len(),
        plain matches Some(output) ==> output@ == unpack(data@),
{
    let mut output: Vec<u8> = Vec::new();
    let mut pos: usize = 0;
    let mut mask: u8 = 0;
    while pos < data.len()
        invariant
            pos <= data@.len(),
            nul_index(data@, 0) == nul_index(data@, pos as int),
            output@.len() == unpacked_len(pos as int),
            pos % 8 != 0 ==> mask == data@[pos - pos % 8],
            forall|k: int|
                0 <= k < output@.len() ==> output@[k] == unpacked_byte(data@, packed_index(k)),
        decreases data@.len() - pos,
    {
        let b = data[pos];
        if b == 0 {
            assert(output@ =~= unpack(data@));
            return Some(output);
        }
        let place: u8 = (pos % 8) as u8;
        if place == 0 {
            mask = b;
        } else {
            assert(packed_index(output@.len() as int) == pos);
            if mask & (1u8 << place) == 0 {
                output.push(b - 1);
            } else {
                output.push(b);
            }
        }
        pos += 1;
    }
    None
}

} // verus!
