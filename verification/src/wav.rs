//! The encoded container: a chunked header followed by the raw sample
//! payload, every byte of it pinned down at the specification level.
//!
//! The layout is the standard pulse-code-modulated audio container. Sessions
//! with at most two channels and at most 16 bits per sample use the compact
//! 44-byte header; wider sessions use the 68-byte extensible header with a
//! subformat identifier, exactly as common encoders write them.

use vstd::prelude::*;
use crate::format::EncodingSpec;
use crate::sample::Sample;
use crate::sample::spec_uniform_format;
use crate::format::SampleFormat;

verus! {

/// Greatest number of payload bytes the container can hold: the 32-bit size
/// fields must accommodate the payload plus the 60 header bytes that follow
/// the outer chunk tag in the larger header form.
pub const MAX_DATA_BYTES: u32 = 0xFFFF_FFC3;

/// The two bytes of a 16-bit value in little-endian order.
pub open spec fn spec_le16(value: u16) -> Seq<u8> {
    seq![(value % 0x100) as u8, (value / 0x100) as u8]
}

/// The four bytes of a 32-bit value in little-endian order.
pub open spec fn spec_le32(value: u32) -> Seq<u8> {
    seq![
        (value % 0x100) as u8,
        ((value / 0x100) % 0x100) as u8,
        ((value / 0x10000) % 0x100) as u8,
        (value / 0x1000000) as u8,
    ]
}

/// The unsigned 16-bit pattern that stores a signed 16-bit value in two's
/// complement.
pub open spec fn spec_u16_of_i16(value: i16) -> u16 {
    if value >= 0 {
        value as u16
    } else {
        (value + 0x10000) as u16
    }
}

/// The unsigned 32-bit pattern that stores a signed 32-bit value in two's
/// complement.
pub open spec fn spec_u32_of_i32(value: i32) -> u32 {
    if value >= 0 {
        value as u32
    } else {
        (value + 0x1_0000_0000) as u32
    }
}

/// The byte that stores a signed 8-bit sample: 8-bit payloads are kept in
/// offset binary, shifted up by 128.
pub open spec fn spec_u8_offset(value: i8) -> u8 {
    (value + 128) as u8
}

/// The encoded bytes of one sample: offset binary at 8 bits, little-endian
/// two's complement at 16 and 32 bits, and the raw little-endian pattern for
/// float samples.
pub open spec fn spec_sample_bytes(sample: Sample) -> Seq<u8> {
    match sample {
        Sample::S8(value) => seq![spec_u8_offset(value)],
        Sample::S16(value) => spec_le16(spec_u16_of_i16(value)),
        Sample::S32(value) => spec_le32(spec_u32_of_i32(value)),
        Sample::F32Bits(bits) => spec_le32(bits),
    }
}

/// The payload: the bytes of every sample, in delivery order.
pub open spec fn spec_payload(samples: Seq<Sample>) -> Seq<u8>
    decreases samples.len(),
{
    if samples.len() == 0 {
        Seq::empty()
    } else {
        spec_payload(samples.drop_last()) + spec_sample_bytes(samples.last())
    }
}

/// Whether the session needs the extensible header form: more than two
/// channels or more than 16 bits per sample.
pub open spec fn spec_uses_extensible(encoding: EncodingSpec) -> bool {
    encoding.channels > 2 || encoding.bits_per_sample > 16
}

/// Total header length in bytes: 44 for the compact form, 68 for the
/// extensible form.
pub open spec fn spec_header_len(encoding: EncodingSpec) -> int {
    if spec_uses_extensible(encoding) {
        68
    } else {
        44
    }
}

/// The format tag of the compact header: 1 for integer samples, 3 for IEEE
/// float samples.
pub open spec fn spec_format_tag(encoding: EncodingSpec) -> u16 {
    if encoding.kind is Float {
        3
    } else {
        1
    }
}

/// How many of the speaker-position bits the channel mask sets: one per
/// channel, clamped to the 18 assignable positions.
pub open spec fn spec_mask_bits(channels: u16) -> u16 {
    if channels > 18 {
        18
    } else {
        channels
    }
}

/// The channel mask of the extensible header: ones in the lowest bit for
/// each channel, clamped to the 18 assignable positions.
pub open spec fn spec_channel_mask(channels: u16) -> u32 {
    ((1u32 << (spec_mask_bits(channels) as u32)) - 1) as u32
}

/// The subformat identifier of the extensible header; only its first byte
/// depends on the payload kind: 1 for integer, 3 for IEEE float.
pub open spec fn spec_subformat_guid(encoding: EncodingSpec) -> Seq<u8> {
    seq![
        spec_format_tag(encoding) as u8,
        0x00u8,
        0x00u8,
        0x00u8,
        0x00u8,
        0x00u8,
        0x10u8,
        0x00u8,
        0x80u8,
        0x00u8,
        0x00u8,
        0xaau8,
        0x00u8,
        0x38u8,
        0x9bu8,
        0x71u8,
    ]
}

/// The average bytes per second recorded in the header.
pub open spec fn spec_header_byte_rate(encoding: EncodingSpec) -> u32 {
    (encoding.sample_rate * encoding.spec_byte_width() * encoding.channels) as u32
}

/// The block alignment recorded in the header: bytes per sample frame,
/// truncated to 16 bits.
pub open spec fn spec_block_align(encoding: EncodingSpec) -> u16 {
    ((encoding.spec_byte_width() * encoding.channels) % 0x10000) as u16
}

/// The outer chunk size recorded in the header: payload bytes plus the
/// header bytes after the tag and size fields themselves.
pub open spec fn spec_outer_size(encoding: EncodingSpec, data_len: u32) -> u32 {
    (data_len + spec_header_len(encoding) - 8) as u32
}

/// Every byte of the container header, for a payload of `data_len` bytes.
pub open spec fn spec_wav_header(encoding: EncodingSpec, data_len: u32) -> Seq<u8> {
    let prefix = seq![0x52u8, 0x49u8, 0x46u8, 0x46u8]  // "RIFF"
        + spec_le32(spec_outer_size(encoding, data_len)) + seq![
        0x57u8,
        0x41u8,
        0x56u8,
        0x45u8,
    ]  // "WAVE"
        + seq![0x66u8, 0x6du8, 0x74u8, 0x20u8];  // "fmt "
    let data_header = seq![0x64u8, 0x61u8, 0x74u8, 0x61u8]  // "data"
        + spec_le32(data_len);
    if spec_uses_extensible(encoding) {
        prefix + spec_le32(40) + spec_le16(0xFFFE) + spec_le16(encoding.channels) + spec_le32(
            encoding.sample_rate,
        ) + spec_le32(spec_header_byte_rate(encoding)) + spec_le16(spec_block_align(encoding))
            + spec_le16(encoding.bits_per_sample) + spec_le16(22) + spec_le16(
            encoding.bits_per_sample,
        ) + spec_le32(spec_channel_mask(encoding.channels)) + spec_subformat_guid(encoding)
            + data_header
    } else {
        prefix + spec_le32(16) + spec_le16(spec_format_tag(encoding)) + spec_le16(
            encoding.channels,
        ) + spec_le32(encoding.sample_rate) + spec_le32(spec_header_byte_rate(encoding))
            + spec_le16(spec_block_align(encoding)) + spec_le16(encoding.bits_per_sample)
            + data_header
    }
}

/// A complete encoded recording: the header for the payload's length,
/// followed by the payload.
pub open spec fn spec_encoded(encoding: EncodingSpec, samples: Seq<Sample>) -> Seq<u8> {
    spec_wav_header(encoding, spec_payload(samples).len() as u32) + spec_payload(samples)
}

/// Append the two little-endian bytes of a 16-bit value.
fn push_le16(out: &mut Vec<u8>, value: u16)
    ensures
        final(out)@ == old(out)@ + spec_le16(value),
{
    out.push((value % 0x100) as u8);
    out.push((value / 0x100) as u8);
    assert(out@ =~= old(out)@ + spec_le16(value));
}

/// Append the four little-endian bytes of a 32-bit value.
fn push_le32(out: &mut Vec<u8>, value: u32)
    ensures
        final(out)@ == old(out)@ + spec_le32(value),
{
    out.push((value % 0x100) as u8);
    out.push(((value / 0x100) % 0x100) as u8);
    out.push(((value / 0x10000) % 0x100) as u8);
    out.push((value / 0x1000000) as u8);
    assert(out@ =~= old(out)@ + spec_le32(value));
}

/// Append the encoded bytes of one sample.
fn push_sample_bytes(out: &mut Vec<u8>, sample: Sample)
    ensures
        final(out)@ == old(out)@ + spec_sample_bytes(sample),
{
    match sample {
        Sample::S8(value) => {
            out.push(((value as i16) + 128) as u8);
            assert(out@ =~= old(out)@ + spec_sample_bytes(sample));
        },
        Sample::S16(value) => {
            let pattern: u16 = if value >= 0 {
                value as u16
            } else {
                ((value as i32) + 0x10000) as u16
            };
            push_le16(out, pattern);
        },
        Sample::S32(value) => {
            let pattern: u32 = if value >= 0 {
                value as u32
            } else {
                ((value as i64) + 0x1_0000_0000) as u32
            };
            push_le32(out, pattern);
        },
        Sample::F32Bits(bits) => {
            push_le32(out, bits);
        },
    }
}

/// Each encoded sample takes exactly its format's byte width.
pub proof fn lemma_sample_bytes_len(sample: Sample)
    ensures
        spec_sample_bytes(sample).len() == sample.spec_format().spec_byte_width(),
{
}

/// A payload of same-format samples takes exactly the sample count times
/// the format's byte width.
pub proof fn lemma_payload_len(samples: Seq<Sample>, format: SampleFormat)
    requires
        spec_uniform_format(samples, format),
    ensures
        spec_payload(samples).len() == samples.len() * format.spec_byte_width(),
    decreases samples.len(),
{
    if samples.len() > 0 {
        assert(spec_uniform_format(samples.drop_last(), format));
        lemma_payload_len(samples.drop_last(), format);
        lemma_sample_bytes_len(samples.last());
    }
}

/// Appending one sample appends exactly its bytes to the payload.
pub proof fn lemma_payload_snoc(samples: Seq<Sample>, sample: Sample)
    ensures
        spec_payload(samples.push(sample)) == spec_payload(samples) + spec_sample_bytes(sample),
{
    assert(samples.push(sample).drop_last() =~= samples);
    assert(samples.push(sample).last() == sample);
}

/// Build the payload bytes of a recording, in delivery order.
fn build_payload(samples: &Vec<Sample>) -> (out: Vec<u8>)
    ensures
        out@ == spec_payload(samples@),
{
    let mut out: Vec<u8> = Vec::new();
    let mut i: usize = 0;
    while i < samples.len()
        invariant
            i <= samples@.len(),
            out@ == spec_payload(samples@.take(i as int)),
        decreases samples@.len() - i,
    {
        push_sample_bytes(&mut out, samples[i]);
        proof {
            lemma_payload_snoc(samples@.take(i as int), samples@[i as int]);
            assert(samples@.take(i + 1) =~= samples@.take(i as int).push(samples@[i as int]));
        }
        i = i + 1;
    }
    assert(samples@.take(samples@.len() as int) =~= samples@);
    out
}

/// Build the container header for a payload of `data_len` bytes.
#[verifier::rlimit(100)]
fn build_header(encoding: EncodingSpec, data_len: u32) -> (out: Vec<u8>)
    requires
        encoding.valid(),
        data_len <= MAX_DATA_BYTES,
    ensures
        out@ == spec_wav_header(encoding, data_len),
{
    let extensible: bool = encoding.channels > 2 || encoding.bits_per_sample > 16;
    let width: u16 = encoding.bits_per_sample / 8;
    assert(width <= 4);
    assert((width as int) * (encoding.channels as int) <= 4 * 0x10000) by (nonlinear_arith)
        requires
            width <= 4,
            encoding.channels <= 0xFFFF,
    ;
    assert((encoding.sample_rate as int) * (width as int) <= 0x4_0000_0000) by (nonlinear_arith)
        requires
            width <= 4,
            encoding.sample_rate <= 0xFFFF_FFFF,
    ;
    assert((encoding.sample_rate as int) * (width as int) * (encoding.channels as int)
        <= u32::MAX) by {
        assert((encoding.sample_rate as int) * (width as int) * (encoding.channels as int)
            == encoding.spec_byte_rate());
    }
    let byte_rate: u32 = ((encoding.sample_rate as u64) * (width as u64) * (encoding.channels
        as u64)) as u32;
    let block_align: u16 = (((width as u32) * (encoding.channels as u32)) % 0x10000) as u16;
    let header_len: u32 = if extensible {
        68
    } else {
        44
    };
    let format_tag: u16 = match encoding.kind {
        crate::format::SampleKind::Float => 3,
        crate::format::SampleKind::Int => 1,
    };

    let mut out: Vec<u8> = Vec::new();
    out.push(0x52);
    out.push(0x49);
    out.push(0x46);
    out.push(0x46);
    push_le32(&mut out, data_len + (header_len - 8));
    out.push(0x57);
    out.push(0x41);
    out.push(0x56);
    out.push(0x45);
    out.push(0x66);
    out.push(0x6d);
    out.push(0x74);
    out.push(0x20);
    if extensible {
        push_le32(&mut out, 40);
        push_le16(&mut out, 0xFFFE);
        push_le16(&mut out, encoding.channels);
        push_le32(&mut out, encoding.sample_rate);
        push_le32(&mut out, byte_rate);
        push_le16(&mut out, block_align);
        push_le16(&mut out, encoding.bits_per_sample);
        push_le16(&mut out, 22);
        push_le16(&mut out, encoding.bits_per_sample);
        let mask_bits: u16 = if encoding.channels > 18 {
            18
        } else {
            encoding.channels
        };
        assert((1u32 << (mask_bits as u32)) >= 1) by (bit_vector)
            requires
                mask_bits <= 18,
        ;
        let channel_mask: u32 = (1u32 << (mask_bits as u32)) - 1;
        push_le32(&mut out, channel_mask);
        out.push(format_tag as u8);
        out.push(0x00);
        out.push(0x00);
        out.push(0x00);
        out.push(0x00);
        out.push(0x00);
        out.push(0x10);
        out.push(0x00);
        out.push(0x80);
        out.push(0x00);
        out.push(0x00);
        out.push(0xaa);
        out.push(0x00);
        out.push(0x38);
        out.push(0x9b);
        out.push(0x71);
    } else {
        push_le32(&mut out, 16);
        push_le16(&mut out, format_tag);
        push_le16(&mut out, encoding.channels);
        push_le32(&mut out, encoding.sample_rate);
        push_le32(&mut out, byte_rate);
        push_le16(&mut out, block_align);
        push_le16(&mut out, encoding.bits_per_sample);
    }
    out.push(0x64);
    out.push(0x61);
    out.push(0x74);
    out.push(0x61);
    push_le32(&mut out, data_len);
    assert(out@ =~= spec_wav_header(encoding, data_len));
    out
}

/// The header is correct for the spec it was built from: it has the
/// documented length, and the fields a consumer reads — channel count,
/// sample rate, bits per sample, the integer-or-float tag and the payload
/// length — hold exactly the negotiated values, at their documented offsets
/// in whichever header form the spec selects.
#[verifier::rlimit(100)]
pub proof fn lemma_header_fields(encoding: EncodingSpec, data_len: u32)
    requires
        encoding.valid(),
        data_len <= MAX_DATA_BYTES,
    ensures
        spec_wav_header(encoding, data_len).len() == spec_header_len(encoding),
        spec_wav_header(encoding, data_len).subrange(22, 24) == spec_le16(encoding.channels),
        spec_wav_header(encoding, data_len).subrange(24, 28) == spec_le32(encoding.sample_rate),
        !spec_uses_extensible(encoding) ==> {
            &&& spec_wav_header(encoding, data_len).subrange(20, 22) == spec_le16(
                spec_format_tag(encoding),
            )
            &&& spec_wav_header(encoding, data_len).subrange(34, 36) == spec_le16(
                encoding.bits_per_sample,
            )
            &&& spec_wav_header(encoding, data_len).subrange(40, 44) == spec_le32(data_len)
        },
        spec_uses_extensible(encoding) ==> {
            &&& spec_wav_header(encoding, data_len)[44] == spec_format_tag(encoding) as u8
            &&& spec_wav_header(encoding, data_len).subrange(38, 40) == spec_le16(
                encoding.bits_per_sample,
            )
            &&& spec_wav_header(encoding, data_len).subrange(64, 68) == spec_le32(data_len)
        },
{
    let header = spec_wav_header(encoding, data_len);
    if spec_uses_extensible(encoding) {
        assert(header.subrange(22, 24) =~= spec_le16(encoding.channels));
        assert(header.subrange(24, 28) =~= spec_le32(encoding.sample_rate));
        assert(header.subrange(38, 40) =~= spec_le16(encoding.bits_per_sample));
        assert(header.subrange(64, 68) =~= spec_le32(data_len));
    } else {
        assert(header.subrange(20, 22) =~= spec_le16(spec_format_tag(encoding)));
        assert(header.subrange(22, 24) =~= spec_le16(encoding.channels));
        assert(header.subrange(24, 28) =~= spec_le32(encoding.sample_rate));
        assert(header.subrange(34, 36) =~= spec_le16(encoding.bits_per_sample));
        assert(header.subrange(40, 44) =~= spec_le32(data_len));
    }
}

/// An encoded recording is the header followed by the payload: it has
/// exactly the header's length plus one sample width per recorded sample,
/// its head is the header for that payload length, and its tail is the
/// payload. In particular a recording of zero samples is the bare,
/// well-formed header with a zero payload length.
pub proof fn lemma_encoded_shape(encoding: EncodingSpec, samples: Seq<Sample>)
    requires
        encoding.valid(),
        spec_uniform_format(samples, encoding.spec_sample_format()),
        samples.len() * encoding.spec_byte_width() <= MAX_DATA_BYTES,
    ensures
        spec_payload(samples).len() == samples.len() * encoding.spec_byte_width(),
        spec_encoded(encoding, samples).len() == spec_header_len(encoding) + samples.len()
            * encoding.spec_byte_width(),
        spec_encoded(encoding, samples).subrange(0, spec_header_len(encoding))
            == spec_wav_header(encoding, spec_payload(samples).len() as u32),
        spec_encoded(encoding, samples).subrange(
            spec_header_len(encoding),
            spec_encoded(encoding, samples).len() as int,
        ) == spec_payload(samples),
{
    crate::format::lemma_valid_spec_width(encoding);
    lemma_payload_len(samples, encoding.spec_sample_format());
    let data_len = spec_payload(samples).len() as u32;
    lemma_header_fields(encoding, data_len);
    assert(spec_encoded(encoding, samples).subrange(0, spec_header_len(encoding))
        =~= spec_wav_header(encoding, data_len));
    assert(spec_encoded(encoding, samples).subrange(
        spec_header_len(encoding),
        spec_encoded(encoding, samples).len() as int,
    ) =~= spec_payload(samples));
}

/// Encode a finished recording: the container header followed by the bytes
/// of every sample, in order.
pub fn encode_recording(encoding: EncodingSpec, samples: &Vec<Sample>) -> (out: Vec<u8>)
    requires
        encoding.valid(),
        spec_uniform_format(samples@, encoding.spec_sample_format()),
        samples@.len() * encoding.spec_byte_width() <= MAX_DATA_BYTES,
    ensures
        out@ == spec_encoded(encoding, samples@),
{
    let payload = build_payload(samples);
    proof {
        lemma_payload_len(samples@, encoding.spec_sample_format());
        crate::format::lemma_valid_spec_width(encoding);
    }
    let data_len: u32 = payload.len() as u32;
    let mut out = build_header(encoding, data_len);
    let mut i: usize = 0;
    while i < payload.len()
        invariant
            i <= payload@.len(),
            out@ == spec_wav_header(encoding, payload@.len() as u32) + payload@.take(i as int),
        decreases payload@.len() - i,
    {
        out.push(payload[i]);
        proof {
            assert(out@ =~= spec_wav_header(encoding, payload@.len() as u32) + payload@.take(
                i + 1,
            ));
        }
        i = i + 1;
    }
    assert(payload@.take(payload@.len() as int) =~= payload@);
    out
}

} // verus!
