//! The codec: pure functions mapping (encoding kind, protocol words) to a
//! logical 32-bit value and back. Decoding is total: a short read is decoded
//! by treating each missing word as 0, and extra words are ignored.

use vstd::prelude::*;
use vstd::arithmetic::div_mod::{
    lemma_fundamental_div_mod, lemma_mod_multiples_vanish, lemma_small_mod,
};
use crate::catalog::EncodingKind;

verus! {

/// Two's-complement reading of a 32-bit unsigned composition.
pub open spec fn as_signed32(u: int) -> int {
    if u >= 0x8000_0000 {
        u - 0x1_0000_0000
    } else {
        u
    }
}

/// The 32-bit unsigned number whose two's-complement reading is `v`.
pub open spec fn as_unsigned32(v: int) -> int {
    if v < 0 {
        v + 0x1_0000_0000
    } else {
        v
    }
}

/// Word `i` of a response, with a missing word read as 0.
pub open spec fn word_or_zero(words: Seq<u16>, i: int) -> int {
    if words.len() > i {
        words[i] as int
    } else {
        0
    }
}

/// The value that a word sequence denotes under an encoding kind.
pub open spec fn spec_decode(kind: EncodingKind, words: Seq<u16>) -> int {
    let w0 = word_or_zero(words, 0);
    let w1 = word_or_zero(words, 1);
    match kind {
        EncodingKind::Scalar => w0,
        EncodingKind::Wide32 => as_signed32(w0 * 0x10000 + w1),
        EncodingKind::SignedFlagged => if w0 == 1 {
            w1 - 0x10000
        } else {
            w1
        },
    }
}

/// `spec_decode`, narrowed to the executable value type. The narrowing is
/// lossless: `decode` ensures its `i32` result equals `spec_decode` as an
/// integer, for every word sequence.
pub open spec fn decoded(kind: EncodingKind, words: Seq<u16>) -> i32 {
    spec_decode(kind, words) as i32
}

/// The word sequence that encodes value `v` under an encoding kind.
/// For `Scalar` and the magnitude word of `SignedFlagged`, the word carries
/// the low 16 bits of `v`'s two's complement.
pub open spec fn spec_encode(kind: EncodingKind, v: int) -> Seq<u16> {
    match kind {
        EncodingKind::Scalar => seq![(v % 0x10000) as u16],
        EncodingKind::Wide32 => {
            let u = as_unsigned32(v);
            seq![(u / 0x10000) as u16, (u % 0x10000) as u16]
        },
        EncodingKind::SignedFlagged => seq![
            if v < 0 { 1u16 } else { 0u16 },
            (v % 0x10000) as u16,
        ],
    }
}

/// Decode a response into a logical value. Total over any word count:
/// missing words are read as 0 (the degraded-decode rule for short reads)
/// and words past the kind's count are ignored.
pub fn decode(kind: EncodingKind, words: &Vec<u16>) -> (v: i32)
    ensures
        v == decoded(kind, words@),
        v as int == spec_decode(kind, words@),
{
    let w0: u16 = if words.len() >= 1 { words[0] } else { 0 };
    let w1: u16 = if words.len() >= 2 { words[1] } else { 0 };
    match kind {
        EncodingKind::Scalar => w0 as i32,
        EncodingKind::Wide32 => {
            let u: u32 = (w0 as u32) * 0x10000 + (w1 as u32);
            if u >= 0x8000_0000 {
                ((u as i64) - 0x1_0000_0000i64) as i32
            } else {
                u as i32
            }
        },
        EncodingKind::SignedFlagged => {
            if w0 == 1 {
                (w1 as i32) - 0x10000
            } else {
                w1 as i32
            }
        },
    }
}

/// The low 16 bits of `v`'s two's complement, as the Euclidean remainder
/// of `v` modulo 65536.
fn low16(v: i32) -> (r: u16)
    ensures
        r as int == (v as int) % 0x10000,
{
    if v >= 0 {
        (v % 0x10000) as u16
    } else {
        let u: u32 = ((v as i64) + 0x1_0000_0000i64) as u32;
        proof {
            lemma_mod_multiples_vanish(0x10000, v as int, 0x10000);
            assert(0x10000int * 0x10000 == 0x1_0000_0000);
        }
        (u % 0x10000) as u16
    }
}

/// Encode a logical value into the word layout of an encoding kind.
pub fn encode(kind: EncodingKind, v: i32) -> (r: Vec<u16>)
    ensures
        r@ == spec_encode(kind, v as int),
        r@.len() == crate::catalog::spec_word_count(kind),
{
    match kind {
        EncodingKind::Scalar => {
            let w = low16(v);
            let mut out: Vec<u16> = Vec::new();
            out.push(w);
            proof {
                assert(out@ =~= spec_encode(kind, v as int));
            }
            out
        },
        EncodingKind::Wide32 => {
            let u: u32 = if v >= 0 {
                v as u32
            } else {
                ((v as i64) + 0x1_0000_0000i64) as u32
            };
            let hi: u16 = (u / 0x10000) as u16;
            let lo: u16 = (u % 0x10000) as u16;
            let mut out: Vec<u16> = Vec::new();
            out.push(hi);
            out.push(lo);
            proof {
                assert(out@ =~= spec_encode(kind, v as int));
            }
            out
        },
        EncodingKind::SignedFlagged => {
            let indicator: u16 = if v < 0 { 1 } else { 0 };
            let w = low16(v);
            let mut out: Vec<u16> = Vec::new();
            out.push(indicator);
            out.push(w);
            proof {
                assert(out@ =~= spec_encode(kind, v as int));
            }
            out
        },
    }
}

/// Round-trip law: for every encoding kind and every value in that kind's
/// representable range, decoding an encoding of the value gives it back.
pub proof fn lemma_round_trip(kind: EncodingKind, v: int)
    requires
        crate::catalog::in_range(kind, v),
    ensures
        spec_decode(kind, spec_encode(kind, v)) == v,
{
    match kind {
        EncodingKind::Scalar => {
            lemma_small_mod(v as nat, 0x10000);
        },
        EncodingKind::Wide32 => {
            let u = as_unsigned32(v);
            lemma_fundamental_div_mod(u, 0x10000);
        },
        EncodingKind::SignedFlagged => {
            if v < 0 {
                lemma_mod_multiples_vanish(1, v, 0x10000);
                lemma_small_mod((v + 0x10000) as nat, 0x10000);
            } else {
                lemma_small_mod(v as nat, 0x10000);
            }
        },
    }
}

} // verus!
