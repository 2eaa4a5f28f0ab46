//! Sample formats: what the decoder produces for a file and which native
//! output containers can carry it without losing bit-perfection.

use vstd::prelude::*;

verus! {

/// The sample container kind the decoder produces for a file.
///
/// Determines the inverse scaling applied when converting samples back to
/// the native integer format for bit-perfect output.
#[derive(Debug, Clone, Copy, PartialEq, Eq, Structural)]
pub enum DecodedBufferKind {
    /// 16-bit signed integer, scale `2^15`.
    S16,
    /// 24-bit signed integer, scale `2^23`.
    S24,
    /// 32-bit signed integer container, scale `2^31` (also produced for FLAC
    /// files of any bit depth; the true precision is in `bits_per_sample`).
    S32,
    /// 8-bit unsigned integer, scale `2^7`.
    U8,
    /// 32-bit float.
    F32,
    /// 64-bit float.
    F64,
}

/// Native audio properties of a file, as reported by a decode probe.
#[derive(Debug, Clone, Copy, PartialEq, Eq, Structural)]
pub struct FileAudio {
    /// Native sample rate in Hz.
    pub sample_rate: usize,
    /// Channel count.
    pub channels: usize,
    /// Decoded buffer kind (drives the conversion to the native format).
    pub kind: DecodedBufferKind,
    /// Nominal bit depth reported by the codec parameters.
    pub bits_per_sample: u32,
}

/// Native output container negotiated with the sound device.
#[derive(Debug, Clone, Copy, PartialEq, Eq, Structural)]
pub enum NativeFormat {
    /// 16-bit signed integer.
    S16,
    /// 24-bit signed integer in a 32-bit container, LSB justified.
    S24,
    /// 24-bit signed integer packed in 3 bytes.
    S243,
    /// 32-bit signed integer.
    S32,
    /// 8-bit unsigned integer.
    U8,
    /// 32-bit float.
    F32,
    /// 64-bit float.
    F64,
}

/// Bytes per stereo frame in a container: two samples of its width.
pub open spec fn frame_bytes_spec(f: NativeFormat) -> nat {
    match f {
        NativeFormat::S16 => 4,
        NativeFormat::S24 => 8,
        NativeFormat::S243 => 6,
        NativeFormat::S32 => 8,
        NativeFormat::U8 => 2,
        NativeFormat::F32 => 8,
        NativeFormat::F64 => 16,
    }
}

impl NativeFormat {
    /// Bytes per stereo frame in this container.
    pub fn frame_bytes(self) -> (n: usize)
        ensures
            n == frame_bytes_spec(self),
    {
        match self {
            NativeFormat::S16 => 4,
            NativeFormat::S24 => 8,
            NativeFormat::S243 => 6,
            NativeFormat::S32 => 8,
            NativeFormat::U8 => 2,
            NativeFormat::F32 => 8,
            NativeFormat::F64 => 16,
        }
    }
}

/// The scaling that turns decoded samples back into integers of the
/// source's own width.
#[derive(Debug, Clone, Copy, PartialEq, Eq, Structural)]
pub enum Converter {
    /// Scale `2^15`, right-justified.
    S16,
    /// Scale `2^23`, right-justified.
    S24,
    /// Scale `2^31`, left-justified.
    S32,
    /// Scale `2^7` (unsigned).
    U8,
    /// 32-bit float.
    F32,
    /// 64-bit float.
    F64,
}

/// The converter for each decoded kind: the one of the same name.
pub open spec fn converter_for(kind: DecodedBufferKind) -> Converter {
    match kind {
        DecodedBufferKind::S16 => Converter::S16,
        DecodedBufferKind::S24 => Converter::S24,
        DecodedBufferKind::S32 => Converter::S32,
        DecodedBufferKind::U8 => Converter::U8,
        DecodedBufferKind::F32 => Converter::F32,
        DecodedBufferKind::F64 => Converter::F64,
    }
}

impl Converter {
    /// The converter that inverts the decoder's scaling for `kind`.
    pub fn for_kind(kind: DecodedBufferKind) -> (c: Converter)
        ensures
            c == converter_for(kind),
    {
        match kind {
            DecodedBufferKind::S16 => Converter::S16,
            DecodedBufferKind::S24 => Converter::S24,
            DecodedBufferKind::S32 => Converter::S32,
            DecodedBufferKind::U8 => Converter::U8,
            DecodedBufferKind::F32 => Converter::F32,
            DecodedBufferKind::F64 => Converter::F64,
        }
    }

    /// Whether samples are left-justified in a 32-bit container (and so
    /// shifted right to the output width).
    pub fn left_justified(self) -> (r: bool)
        ensures
            r == (self == Converter::S32 || self == Converter::F32 || self == Converter::F64),
    {
        match self {
            Converter::S32 | Converter::F32 | Converter::F64 => true,
            _ => false,
        }
    }

    /// The integer sample for an output with `out_bits` significant bits,
    /// from the value `raw` at the converter's own scale: a left-justified
    /// value is shifted right (keeping its sign) to the output width, any
    /// other stays as it is.
    pub fn justified(self, raw: i32, out_bits: u32) -> (v: i32)
        requires
            self == Converter::S32 || self == Converter::F32 || self == Converter::F64 ==> 1 <= out_bits
                <= 32,
        ensures
            v == (if self == Converter::S32 || self == Converter::F32 || self == Converter::F64 {
                raw >> ((32 - out_bits) as u32)
            } else {
                raw
            }),
    {
        if self.left_justified() {
            raw >> (32 - out_bits)
        } else {
            raw
        }
    }
}

/// Byte `shift / 8` of a 32-bit pattern, counting from the least
/// significant.
pub open spec fn byte_at(u: u32, shift: u32) -> u8 {
    ((u >> shift) & 0xff) as u8
}

/// The little-endian bytes an integer container holds for sample `v`: its
/// two's-complement pattern cut to the container's width (16 bits, a
/// 32-bit word for 24 and 32 bits, three bytes for packed 24 bits, one
/// byte for 8 bits).
pub open spec fn packed_bytes(v: i32, fmt: NativeFormat) -> Seq<u8> {
    let u = v as u32;
    match fmt {
        NativeFormat::S16 => seq![byte_at(u, 0), byte_at(u, 8)],
        NativeFormat::S24 | NativeFormat::S32 => seq![byte_at(u, 0), byte_at(u, 8), byte_at(u, 16), byte_at(u, 24)],
        NativeFormat::S243 => seq![byte_at(u, 0), byte_at(u, 8), byte_at(u, 16)],
        NativeFormat::U8 => seq![v as u8],
        _ => seq![],
    }
}

/// Whether a container holds integer samples.
pub open spec fn is_integer_format(fmt: NativeFormat) -> bool {
    !(fmt == NativeFormat::F32 || fmt == NativeFormat::F64)
}

/// Appends one integer sample to `out` in the given container: one sample
/// fills half a stereo frame, and what `out` held stays as it was.
pub fn pack_int(out: &mut Vec<u8>, v: i32, fmt: NativeFormat)
    requires
        is_integer_format(fmt),
    ensures
        final(out)@ == old(out)@ + packed_bytes(v, fmt),
        final(out)@.len() == old(out)@.len() + frame_bytes_spec(fmt) / 2,
        final(out)@.subrange(0, old(out)@.len() as int) == old(out)@,
{
    proof { lemma_packed_frame_size(v, fmt); }
    let u = v as u32;
    let ghost start = out@;
    match fmt {
        NativeFormat::U8 => {
            out.push(v as u8);
        },
        NativeFormat::S16 => {
            out.push(((u >> 0u32) & 0xff) as u8);
            out.push(((u >> 8u32) & 0xff) as u8);
        },
        NativeFormat::S243 => {
            out.push(((u >> 0u32) & 0xff) as u8);
            out.push(((u >> 8u32) & 0xff) as u8);
            out.push(((u >> 16u32) & 0xff) as u8);
        },
        _ => {
            out.push(((u >> 0u32) & 0xff) as u8);
            out.push(((u >> 8u32) & 0xff) as u8);
            out.push(((u >> 16u32) & 0xff) as u8);
            out.push(((u >> 24u32) & 0xff) as u8);
        },
    }
    proof {
        assert(out@ =~= start + packed_bytes(v, fmt));
        assert(out@.subrange(0, start.len() as int) =~= start);
    }
}

/// Output containers offered for a file, in preference order. Integer
/// sources get only containers of their exact bit depth; float sources may
/// fall back to any container.
pub open spec fn output_candidates_spec(kind: DecodedBufferKind, bits: u32) -> Seq<NativeFormat> {
    match kind {
        DecodedBufferKind::S16 => seq![NativeFormat::S16],
        DecodedBufferKind::S24 => seq![NativeFormat::S24, NativeFormat::S243],
        DecodedBufferKind::S32 => if bits <= 16 {
            seq![NativeFormat::S16]
        } else if bits <= 24 {
            seq![NativeFormat::S24, NativeFormat::S243]
        } else {
            seq![NativeFormat::S32]
        },
        DecodedBufferKind::U8 => seq![NativeFormat::U8],
        DecodedBufferKind::F32 => seq![
            NativeFormat::F32,
            NativeFormat::S32,
            NativeFormat::S24,
            NativeFormat::S243,
            NativeFormat::S16,
        ],
        DecodedBufferKind::F64 => seq![NativeFormat::F64, NativeFormat::F32, NativeFormat::S32],
    }
}

/// Output format candidates for a file, in preference order.
pub fn output_candidates(kind: DecodedBufferKind, bits: u32) -> (r: Vec<NativeFormat>)
    ensures
        r@ == output_candidates_spec(kind, bits),
{
    let mut r: Vec<NativeFormat> = Vec::new();
    match kind {
        DecodedBufferKind::S16 => {
            r.push(NativeFormat::S16);
        },
        DecodedBufferKind::S24 => {
            r.push(NativeFormat::S24);
            r.push(NativeFormat::S243);
        },
        DecodedBufferKind::S32 => {
            if bits <= 16 {
                r.push(NativeFormat::S16);
            } else if bits <= 24 {
                r.push(NativeFormat::S24);
                r.push(NativeFormat::S243);
            } else {
                r.push(NativeFormat::S32);
            }
        },
        DecodedBufferKind::U8 => {
            r.push(NativeFormat::U8);
        },
        DecodedBufferKind::F32 => {
            r.push(NativeFormat::F32);
            r.push(NativeFormat::S32);
            r.push(NativeFormat::S24);
            r.push(NativeFormat::S243);
            r.push(NativeFormat::S16);
        },
        DecodedBufferKind::F64 => {
            r.push(NativeFormat::F64);
            r.push(NativeFormat::F32);
            r.push(NativeFormat::S32);
        },
    }
    proof {
        assert(r@ =~= output_candidates_spec(kind, bits));
    }
    r
}

/// The significant bits a native integer container carries; floats carry
/// none in this sense.
pub open spec fn container_bits(f: NativeFormat) -> nat {
    match f {
        NativeFormat::S16 => 16,
        NativeFormat::S24 => 24,
        NativeFormat::S243 => 24,
        NativeFormat::S32 => 32,
        NativeFormat::U8 => 8,
        NativeFormat::F32 => 0,
        NativeFormat::F64 => 0,
    }
}

/// Bit-perfection: an integer source is offered only integer containers
/// of exactly its own depth (a 32-bit container's depth is the codec's
/// nominal depth, rounded up to 16, 24 or 32); only float sources fall back.
pub proof fn lemma_integer_sources_keep_depth(kind: DecodedBufferKind, bits: u32)
    requires
        kind != DecodedBufferKind::F32,
        kind != DecodedBufferKind::F64,
    ensures
        forall|i: int|
            0 <= i < output_candidates_spec(kind, bits).len() ==> container_bits(
                #[trigger] output_candidates_spec(kind, bits)[i],
            ) == match kind {
                DecodedBufferKind::S16 => 16,
                DecodedBufferKind::S24 => 24,
                DecodedBufferKind::U8 => 8,
                _ => if bits <= 16 {
                    16
                } else if bits <= 24 {
                    24nat
                } else {
                    32
                },
            },
{
}

/// Whether `v` holds `f`.
fn contains_format(v: &Vec<NativeFormat>, f: NativeFormat) -> (r: bool)
    ensures
        r == v@.contains(f),
{
    let mut i: usize = 0;
    while i < v.len()
        invariant
            i <= v@.len(),
            forall|j: int| 0 <= j < i ==> v@[j] != f,
        decreases v@.len() - i,
    {
        if v[i] == f {
            return true;
        }
        i = i + 1;
    }
    false
}

/// A crossfade between two bit-perfect streams needs no resampling: the
/// next file has the output's rate, and the container the device was opened
/// with is one the next file may use.
pub open spec fn crossfade_compatible_spec(
    next: FileAudio,
    output_rate: usize,
    current: Option<NativeFormat>,
) -> bool {
    next.sample_rate == output_rate && match current {
        Some(f) => output_candidates_spec(next.kind, next.bits_per_sample).contains(f),
        None => false,
    }
}

/// Whether the next track can be crossfaded into the open bit-perfect
/// stream (same native rate, and the open container is one of its
/// candidates).
pub fn crossfade_compatible(next: &FileAudio, output_rate: usize, current: Option<NativeFormat>) -> (r: bool)
    ensures
        r == crossfade_compatible_spec(*next, output_rate, current),
{
    if next.sample_rate != output_rate {
        return false;
    }
    match current {
        Some(f) => contains_format(&output_candidates(next.kind, next.bits_per_sample), f),
        None => false,
    }
}

/// How much of a decoded block goes into the ring buffer under the
/// silence-trim frame limit.
#[derive(Debug, Clone, Copy, PartialEq, Eq, Structural)]
pub struct PushPlan {
    /// Interleaved stereo samples to push (from the start of the block).
    pub samples: usize,
    /// Frames pushed so far, after this block.
    pub frames_pushed: u32,
    /// Whether decoding goes on after this block.
    pub keep_going: bool,
}

/// A block of `block_len` interleaved stereo samples (`block_len / 2`
/// frames) fits under `limit` when the frames pushed so far plus its frames
/// do not exceed the limit: it is pushed whole and decoding goes on.
/// Otherwise only the frames up to the limit are pushed, the count stays,
/// and decoding stops.
pub open spec fn push_plan_spec(block_len: usize, frames_pushed: u32, limit: u32) -> PushPlan {
    let n = block_len / 2;
    if frames_pushed + n > limit {
        PushPlan { samples: ((limit - frames_pushed) * 2) as usize, frames_pushed, keep_going: false }
    } else {
        PushPlan { samples: block_len, frames_pushed: (frames_pushed + n) as u32, keep_going: true }
    }
}

/// Plans pushing a decoded block under the frame limit (see
/// [`push_plan_spec`]).
pub fn push_plan(block_len: usize, frames_pushed: u32, limit: u32) -> (p: PushPlan)
    requires
        frames_pushed <= limit,
        frames_pushed + block_len / 2 <= u32::MAX,
    ensures
        p == push_plan_spec(block_len, frames_pushed, limit),
        p.samples <= block_len,
        frames_pushed + p.samples / 2 <= limit,
        p.frames_pushed <= limit,
{
    let n_frames = block_len / 2;
    let n = n_frames as u32;
    if frames_pushed + n > limit {
        let allowed = (limit - frames_pushed) as usize * 2;
        PushPlan { samples: allowed, frames_pushed, keep_going: false }
    } else {
        PushPlan { samples: block_len, frames_pushed: frames_pushed + n, keep_going: true }
    }
}


/// A stereo frame in an integer container is two packed samples.
pub proof fn lemma_packed_frame_size(v: i32, fmt: NativeFormat)
    requires
        is_integer_format(fmt),
    ensures
        2 * packed_bytes(v, fmt).len() == frame_bytes_spec(fmt),
{
}

/// The four bytes a 32-bit word container holds put the sample's bit
/// pattern back together.
pub proof fn lemma_packed_word_round_trip(v: i32)
    ensures
        ({
            let b = packed_bytes(v, NativeFormat::S32);
            (b[0] as u32) | ((b[1] as u32) << 8u32) | ((b[2] as u32) << 16u32) | ((b[3] as u32) << 24u32)
        }) == v as u32,
{
    let u = v as u32;
    assert(((((u >> 0u32) & 0xff) as u8) as u32) | (((((u >> 8u32) & 0xff) as u8) as u32) << 8u32) | (((((u
        >> 16u32) & 0xff) as u8) as u32) << 16u32) | (((((u >> 24u32) & 0xff) as u8) as u32) << 24u32) == u)
        by (bit_vector);
}

} // verus!
