//! Serialization of the sky parameters and the derived scattering
//! coefficients into the fixed 128-byte push-constant block.
//!
//! Wire layout, as the shader expects it: the 24 parameter words in declared
//! field order at offset 0 (96 bytes), the Rayleigh coefficient vector at
//! offset 96 (12 bytes), 4 reserved bytes, the Mie coefficient vector at
//! offset 112 (12 bytes), 4 reserved bytes. All words are little-endian.

use vstd::prelude::*;
use crate::params::{Sky, Vec3Bits};

verus! {

/// The two scattering coefficient vectors derived from a `Sky` each frame.
#[derive(Clone, Copy, Debug, PartialEq, Eq, Structural)]
pub struct DerivedCoefficients {
    pub rayleigh: Vec3Bits,
    pub mie: Vec3Bits,
}

/// Number of 32-bit words in the parameter record.
pub const SKY_WORDS: usize = 24;
/// Byte length of the parameter record on the wire.
pub const SKY_BYTE_LEN: usize = 96;
/// Byte length of the whole push-constant block: the parameter record
/// followed by two coefficient slots of four words each.
pub const PACKED_BYTE_LEN: usize = 128;
/// Byte offset of the Rayleigh coefficient vector.
pub const RAYLEIGH_OFFSET: usize = 96;
/// Byte offset of the Mie coefficient vector: one full four-word slot after
/// the parameter record, leaving 4 reserved bytes behind the Rayleigh vector.
pub const MIE_OFFSET: usize = 112;

/// The little-endian bytes of one word.
pub open spec fn le_bytes(w: u32) -> Seq<u8> {
    seq![
        (w & 0xff) as u8,
        ((w >> 8) & 0xff) as u8,
        ((w >> 16) & 0xff) as u8,
        ((w >> 24) & 0xff) as u8,
    ]
}

/// The word with the given little-endian bytes.
pub open spec fn word_of_le_bytes(b0: u8, b1: u8, b2: u8, b3: u8) -> u32 {
    (b0 as u32) | ((b1 as u32) << 8) | ((b2 as u32) << 16) | ((b3 as u32) << 24)
}

/// A word sequence flattened to its little-endian bytes.
pub open spec fn words_to_bytes(ws: Seq<u32>) -> Seq<u8>
    decreases ws.len(),
{
    if ws.len() == 0 {
        Seq::empty()
    } else {
        le_bytes(ws[0]) + words_to_bytes(ws.drop_first())
    }
}

/// The parameter record as its 24 words, in declared field order.
pub open spec fn sky_words(s: Sky) -> Seq<u32> {
    seq![
        s.primaries.x,
        s.primaries.y,
        s.primaries.z,
        s.luminance,
        s.mie_k_coefficient.x,
        s.mie_k_coefficient.y,
        s.mie_k_coefficient.z,
        s.mie_coefficient,
        s.mie_directional_g,
        s.mie_v,
        s.mie_zenith_length,
        s.num_molecules,
        s.rayleigh,
        s.rayleigh_zenith_length,
        s.turbidity,
        s.refractive_index,
        s.sun_position.x,
        s.sun_position.y,
        s.sun_position.z,
        s.sun_angular_diameter_degrees,
        s.sun_intensity_factor,
        s.sun_intensity_falloff_steepness,
        s.tonemap_weighting,
        s.depolarization_factor,
    ]
}

/// All 32 words of the push-constant block; the reserved words are zero.
pub open spec fn packed_words(s: Sky, d: DerivedCoefficients) -> Seq<u32> {
    sky_words(s) + seq![
        d.rayleigh.x,
        d.rayleigh.y,
        d.rayleigh.z,
        0u32,
        d.mie.x,
        d.mie.y,
        d.mie.z,
        0u32,
    ]
}

/// The 128 bytes of the push-constant block.
pub open spec fn packed_bytes(s: Sky, d: DerivedCoefficients) -> Seq<u8> {
    words_to_bytes(packed_words(s, d))
}

/// Byte positions inside the block that no field occupies; an in-place
/// write leaves them alone.
pub open spec fn is_reserved_byte(i: int) -> bool {
    (96 + 12 <= i < 112) || (112 + 12 <= i < 128)
}

/// The word read back from the block at word position `w`.
pub open spec fn word_at(b: Seq<u8>, w: int) -> u32 {
    word_of_le_bytes(b[4 * w], b[4 * w + 1], b[4 * w + 2], b[4 * w + 3])
}

/// The parameter record read back from a packed block.
pub open spec fn unpacked_sky(b: Seq<u8>) -> Sky {
    Sky {
        primaries: Vec3Bits { x: word_at(b, 0), y: word_at(b, 1), z: word_at(b, 2) },
        luminance: word_at(b, 3),
        mie_k_coefficient: Vec3Bits { x: word_at(b, 4), y: word_at(b, 5), z: word_at(b, 6) },
        mie_coefficient: word_at(b, 7),
        mie_directional_g: word_at(b, 8),
        mie_v: word_at(b, 9),
        mie_zenith_length: word_at(b, 10),
        num_molecules: word_at(b, 11),
        rayleigh: word_at(b, 12),
        rayleigh_zenith_length: word_at(b, 13),
        turbidity: word_at(b, 14),
        refractive_index: word_at(b, 15),
        sun_position: Vec3Bits { x: word_at(b, 16), y: word_at(b, 17), z: word_at(b, 18) },
        sun_angular_diameter_degrees: word_at(b, 19),
        sun_intensity_factor: word_at(b, 20),
        sun_intensity_falloff_steepness: word_at(b, 21),
        tonemap_weighting: word_at(b, 22),
        depolarization_factor: word_at(b, 23),
    }
}

/// The coefficient vectors read back from a packed block.
pub open spec fn unpacked_derived(b: Seq<u8>) -> DerivedCoefficients {
    DerivedCoefficients {
        rayleigh: Vec3Bits { x: word_at(b, 24), y: word_at(b, 25), z: word_at(b, 26) },
        mie: Vec3Bits { x: word_at(b, 28), y: word_at(b, 29), z: word_at(b, 30) },
    }
}

pub proof fn lemma_words_to_bytes_len(ws: Seq<u32>)
    ensures
        words_to_bytes(ws).len() == 4 * ws.len(),
    decreases ws.len(),
{
    if ws.len() > 0 {
        lemma_words_to_bytes_len(ws.drop_first());
    }
}

pub proof fn lemma_words_to_bytes_push(ws: Seq<u32>, w: u32)
    ensures
        words_to_bytes(ws.push(w)) == words_to_bytes(ws) + le_bytes(w),
    decreases ws.len(),
{
    let p = ws.push(w);
    if ws.len() == 0 {
        assert(p.len() == 1);
        assert(p[0] == w);
        assert(p.drop_first() =~= Seq::<u32>::empty());
        assert(words_to_bytes(p) == le_bytes(w) + words_to_bytes(Seq::<u32>::empty()));
        assert(words_to_bytes(Seq::<u32>::empty()) =~= Seq::<u8>::empty());
        assert(words_to_bytes(ws) =~= Seq::<u8>::empty());
        assert(words_to_bytes(p) =~= words_to_bytes(ws) + le_bytes(w));
    } else {
        assert(p.len() == ws.len() + 1);
        assert(p[0] == ws[0]);
        assert(p.drop_first() =~= ws.drop_first().push(w));
        lemma_words_to_bytes_push(ws.drop_first(), w);
        assert(words_to_bytes(p) == le_bytes(ws[0]) + (words_to_bytes(ws.drop_first())
            + le_bytes(w)));
        assert(words_to_bytes(ws) == le_bytes(ws[0]) + words_to_bytes(ws.drop_first()));
        assert(words_to_bytes(p) =~= words_to_bytes(ws) + le_bytes(w));
    }
}

/// Flattening places word `w`'s byte `k` at position `4 * w + k`.
pub proof fn lemma_words_to_bytes_index(ws: Seq<u32>, w: int, k: int)
    requires
        0 <= w < ws.len(),
        0 <= k < 4,
    ensures
        words_to_bytes(ws)[4 * w + k] == le_bytes(ws[w])[k],
    decreases w,
{
    lemma_words_to_bytes_len(ws.drop_first());
    if w == 0 {
    } else {
        lemma_words_to_bytes_index(ws.drop_first(), w - 1, k);
    }
}

/// Splitting a word into little-endian bytes and reassembling them is the
/// identity.
proof fn lemma_word_le_roundtrip(w: u32)
    by (bit_vector)
    ensures
        word_of_le_bytes(
            (w & 0xff) as u8,
            ((w >> 8) & 0xff) as u8,
            ((w >> 16) & 0xff) as u8,
            ((w >> 24) & 0xff) as u8,
        ) == w,
{
}

/// Each little-endian byte of a word is below 256.
proof fn lemma_le_byte_bounds(w: u32)
    by (bit_vector)
    ensures
        w & 0xff < 256,
        (w >> 8) & 0xff < 256,
        (w >> 16) & 0xff < 256,
        (w >> 24) & 0xff < 256,
{
}

/// Reading word `w` back out of a packed block returns the word that was
/// packed there.
pub proof fn lemma_packed_word_at(s: Sky, d: DerivedCoefficients, w: int)
    requires
        0 <= w < 32,
    ensures
        word_at(packed_bytes(s, d), w) == packed_words(s, d)[w],
{
    let ws = packed_words(s, d);
    lemma_words_to_bytes_index(ws, w, 0);
    lemma_words_to_bytes_index(ws, w, 1);
    lemma_words_to_bytes_index(ws, w, 2);
    lemma_words_to_bytes_index(ws, w, 3);
    lemma_word_le_roundtrip(ws[w]);
}

/// Packing then unpacking reproduces every parameter field and both
/// coefficient vectors bit for bit.
pub proof fn lemma_pack_roundtrip(s: Sky, d: DerivedCoefficients)
    ensures
        unpacked_sky(packed_bytes(s, d)) == s,
        unpacked_derived(packed_bytes(s, d)) == d,
{
    assert forall|w: int| 0 <= w < 32 implies word_at(packed_bytes(s, d), w) == packed_words(
        s,
        d,
    )[w] by {
        lemma_packed_word_at(s, d, w);
    }
}

/// The reserved bytes of a packed block are zero.
pub proof fn lemma_reserved_bytes_zero(s: Sky, d: DerivedCoefficients, i: int)
    requires
        is_reserved_byte(i),
    ensures
        packed_bytes(s, d)[i] == 0,
{
    let ws = packed_words(s, d);
    let w = i / 4;
    let k = i % 4;
    assert(4 * w + k == i);
    assert(w == 27 || w == 31);
    lemma_words_to_bytes_index(ws, w, k);
    assert(le_bytes(0u32)[k] == 0) by {
        assert(0u32 & 0xff == 0 && (0u32 >> 8) & 0xff == 0 && (0u32 >> 16) & 0xff == 0 && (0u32
            >> 24) & 0xff == 0) by (bit_vector);
    }
}

/// Appends the four little-endian bytes of one word.
fn push_word_bytes(out: &mut Vec<u8>, w: u32)
    ensures
        final(out)@ == old(out)@ + le_bytes(w),
{
    proof {
        lemma_le_byte_bounds(w);
    }
    out.push((w & 0xff) as u8);
    out.push(((w >> 8) & 0xff) as u8);
    out.push(((w >> 16) & 0xff) as u8);
    out.push(((w >> 24) & 0xff) as u8);
    assert(out@ =~= old(out)@ + le_bytes(w));
}

/// All 32 words of the block, in wire order.
fn packed_word_list(sky: &Sky, derived: &DerivedCoefficients) -> (r: Vec<u32>)
    ensures
        r@ == packed_words(*sky, *derived),
{
    let words: Vec<u32> = vec![
        sky.primaries.x,
        sky.primaries.y,
        sky.primaries.z,
        sky.luminance,
        sky.mie_k_coefficient.x,
        sky.mie_k_coefficient.y,
        sky.mie_k_coefficient.z,
        sky.mie_coefficient,
        sky.mie_directional_g,
        sky.mie_v,
        sky.mie_zenith_length,
        sky.num_molecules,
        sky.rayleigh,
        sky.rayleigh_zenith_length,
        sky.turbidity,
        sky.refractive_index,
        sky.sun_position.x,
        sky.sun_position.y,
        sky.sun_position.z,
        sky.sun_angular_diameter_degrees,
        sky.sun_intensity_factor,
        sky.sun_intensity_falloff_steepness,
        sky.tonemap_weighting,
        sky.depolarization_factor,
        derived.rayleigh.x,
        derived.rayleigh.y,
        derived.rayleigh.z,
        0u32,
        derived.mie.x,
        derived.mie.y,
        derived.mie.z,
        0u32,
    ];
    assert(words@ =~= packed_words(*sky, *derived));
    words
}

/// Builds the 128-byte push-constant block for one frame.
pub fn pack(sky: &Sky, derived: &DerivedCoefficients) -> (r: Vec<u8>)
    ensures
        r@ == packed_bytes(*sky, *derived),
        r@.len() == PACKED_BYTE_LEN,
{
    let words = packed_word_list(sky, derived);
    let mut out: Vec<u8> = Vec::new();
    let mut i: usize = 0;
    while i < words.len()
        invariant
            i <= words.len(),
            words@ == packed_words(*sky, *derived),
            out@ == words_to_bytes(words@.take(i as int)),
        decreases words.len() - i,
    {
        let w: u32 = words[i];
        proof {
            lemma_words_to_bytes_push(words@.take(i as int), w);
            assert(words@.take(i + 1) =~= words@.take(i as int).push(w));
        }
        push_word_bytes(&mut out, w);
        i = i + 1;
    }
    proof {
        assert(words@.take(words@.len() as int) =~= words@);
        lemma_words_to_bytes_len(words@);
    }
    out
}

/// Reads the word at word position `w`.
fn read_word(buffer: &Vec<u8>, w: usize) -> (r: u32)
    requires
        4 * w + 4 <= buffer@.len(),
    ensures
        r == word_at(buffer@, w as int),
{
    let n: usize = buffer.len();
    let b0: u8 = buffer[4 * w];
    let b1: u8 = buffer[4 * w + 1];
    let b2: u8 = buffer[4 * w + 2];
    let b3: u8 = buffer[4 * w + 3];
    (b0 as u32) | ((b1 as u32) << 8u32) | ((b2 as u32) << 16u32) | ((b3 as u32) << 24u32)
}

/// Reads a parameter record and coefficient vectors back out of a packed
/// block.
pub fn unpack(buffer: &Vec<u8>) -> (r: (Sky, DerivedCoefficients))
    requires
        buffer@.len() == PACKED_BYTE_LEN,
    ensures
        r.0 == unpacked_sky(buffer@),
        r.1 == unpacked_derived(buffer@),
{
    let sky = Sky {
        primaries: Vec3Bits {
            x: read_word(buffer, 0),
            y: read_word(buffer, 1),
            z: read_word(buffer, 2),
        },
        luminance: read_word(buffer, 3),
        mie_k_coefficient: Vec3Bits {
            x: read_word(buffer, 4),
            y: read_word(buffer, 5),
            z: read_word(buffer, 6),
        },
        mie_coefficient: read_word(buffer, 7),
        mie_directional_g: read_word(buffer, 8),
        mie_v: read_word(buffer, 9),
        mie_zenith_length: read_word(buffer, 10),
        num_molecules: read_word(buffer, 11),
        rayleigh: read_word(buffer, 12),
        rayleigh_zenith_length: read_word(buffer, 13),
        turbidity: read_word(buffer, 14),
        refractive_index: read_word(buffer, 15),
        sun_position: Vec3Bits {
            x: read_word(buffer, 16),
            y: read_word(buffer, 17),
            z: read_word(buffer, 18),
        },
        sun_angular_diameter_degrees: read_word(buffer, 19),
        sun_intensity_factor: read_word(buffer, 20),
        sun_intensity_falloff_steepness: read_word(buffer, 21),
        tonemap_weighting: read_word(buffer, 22),
        depolarization_factor: read_word(buffer, 23),
    };
    let derived = DerivedCoefficients {
        rayleigh: Vec3Bits {
            x: read_word(buffer, 24),
            y: read_word(buffer, 25),
            z: read_word(buffer, 26),
        },
        mie: Vec3Bits {
            x: read_word(buffer, 28),
            y: read_word(buffer, 29),
            z: read_word(buffer, 30),
        },
    };
    (sky, derived)
}

impl Sky {
    /// The parameter record alone as its 96 wire bytes.
    pub fn as_bytes(&self) -> (r: Vec<u8>)
        ensures
            r@ == words_to_bytes(sky_words(*self)),
            r@.len() == SKY_BYTE_LEN,
    {
        let zero = DerivedCoefficients {
            rayleigh: Vec3Bits { x: 0, y: 0, z: 0 },
            mie: Vec3Bits { x: 0, y: 0, z: 0 },
        };
        let packed = pack(self, &zero);
        let mut out: Vec<u8> = Vec::new();
        let mut i: usize = 0;
        proof {
            lemma_words_to_bytes_len(sky_words(*self));
        }
        while i < SKY_BYTE_LEN
            invariant
                i <= SKY_BYTE_LEN,
                packed@ == packed_bytes(*self, zero),
                packed@.len() == PACKED_BYTE_LEN,
                out@.len() == i,
                forall|j: int| 0 <= j < i ==> out@[j] == packed@[j],
            decreases SKY_BYTE_LEN - i,
        {
            let b: u8 = packed[i];
            out.push(b);
            i = i + 1;
        }
        proof {
            lemma_sky_prefix(*self, zero);
            assert(out@ =~= words_to_bytes(sky_words(*self)));
        }
        out
    }

    /// Total byte length of the push-constant block this record packs into.
    pub fn byte_len(&self) -> (r: usize)
        ensures
            r == PACKED_BYTE_LEN,
    {
        PACKED_BYTE_LEN
    }

    /// Writes the block into a caller-supplied buffer of exactly the right
    /// length, leaving the reserved bytes as they were.
    pub fn write_bytes(&self, derived: &DerivedCoefficients, buffer: &mut Vec<u8>)
        requires
            old(buffer)@.len() == PACKED_BYTE_LEN,
        ensures
            final(buffer)@.len() == PACKED_BYTE_LEN,
            forall|i: int|
                0 <= i < PACKED_BYTE_LEN ==> final(buffer)@[i] == if is_reserved_byte(i) {
                    old(buffer)@[i]
                } else {
                    packed_bytes(*self, *derived)[i]
                },
    {
        let packed = pack(self, derived);
        let mut i: usize = 0;
        while i < PACKED_BYTE_LEN
            invariant
                i <= PACKED_BYTE_LEN,
                packed@ == packed_bytes(*self, *derived),
                packed@.len() == PACKED_BYTE_LEN,
                buffer@.len() == PACKED_BYTE_LEN,
                forall|j: int|
                    0 <= j < i ==> buffer@[j] == if is_reserved_byte(j) {
                        old(buffer)@[j]
                    } else {
                        packed_bytes(*self, *derived)[j]
                    },
                forall|j: int| i <= j < PACKED_BYTE_LEN ==> buffer@[j] == old(buffer)@[j],
            decreases PACKED_BYTE_LEN - i,
        {
            let reserved = (RAYLEIGH_OFFSET + 12 <= i && i < MIE_OFFSET) || (MIE_OFFSET + 12 <= i
                && i < PACKED_BYTE_LEN);
            if !reserved {
                let b: u8 = packed[i];
                buffer.set(i, b);
            }
            i = i + 1;
        }
    }

    /// Checked variant of [`Sky::write_bytes`]: refuses, and leaves the
    /// buffer untouched, when the buffer length is not exactly the block
    /// length.
    pub fn try_write_bytes(&self, derived: &DerivedCoefficients, buffer: &mut Vec<u8>) -> (ok:
        bool)
        ensures
            ok == (old(buffer)@.len() == PACKED_BYTE_LEN),
            !ok ==> final(buffer)@ == old(buffer)@,
            ok ==> final(buffer)@.len() == PACKED_BYTE_LEN,
            ok ==> forall|i: int|
                0 <= i < PACKED_BYTE_LEN ==> final(buffer)@[i] == if is_reserved_byte(i) {
                    old(buffer)@[i]
                } else {
                    packed_bytes(*self, *derived)[i]
                },
    {
        if buffer.len() != PACKED_BYTE_LEN {
            return false;
        }
        self.write_bytes(derived, buffer);
        true
    }
}

/// The first 96 bytes of a packed block are the parameter record's bytes.
pub proof fn lemma_sky_prefix(s: Sky, d: DerivedCoefficients)
    ensures
        packed_bytes(s, d).take(SKY_BYTE_LEN as int) == words_to_bytes(sky_words(s)),
{
    let ws = packed_words(s, d);
    lemma_words_to_bytes_len(ws);
    lemma_words_to_bytes_len(sky_words(s));
    assert forall|i: int| 0 <= i < 96 implies packed_bytes(s, d)[i] == words_to_bytes(
        sky_words(s),
    )[i] by {
        let w = i / 4;
        let k = i % 4;
        assert(4 * w + k == i);
        assert(0 <= w < 24);
        lemma_words_to_bytes_index(ws, w, k);
        lemma_words_to_bytes_index(sky_words(s), w, k);
    }
    assert(packed_bytes(s, d).take(SKY_BYTE_LEN as int) =~= words_to_bytes(sky_words(s)));
}

} // verus!
