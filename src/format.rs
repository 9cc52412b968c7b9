//! Sample formats: which one a capture stream uses, how the transcoder names
//! it, and how captured integer samples become the raw bytes it reads.

use vstd::prelude::*;
use byteorder::{ByteOrder, LittleEndian};

verus! {

/// The sample formats an audio device may offer.
#[derive(Clone, Copy, Debug, PartialEq, Eq, Structural)]
pub enum SampleFormat {
    I8,
    I16,
    I32,
    I64,
    U8,
    U16,
    U32,
    U64,
    F32,
    F64,
}

/// The formats a capture stream can be opened with, best first.
pub open spec fn preference(f: SampleFormat) -> Option<nat> {
    match f {
        SampleFormat::F32 => Some(0),
        SampleFormat::I16 => Some(1),
        SampleFormat::I32 => Some(2),
        SampleFormat::I8 => Some(3),
        _ => None,
    }
}

/// Whether a capture stream can be opened with `f`.
pub open spec fn is_capture_format(f: SampleFormat) -> bool {
    preference(f) is Some
}

/// The error of a capture stream that cannot be set up.
#[derive(Clone, Copy, Debug, PartialEq, Eq, Structural)]
pub enum StreamBuildError {
    /// The device offers none of the formats a stream can be opened with.
    UnsupportedFormat,
    /// No device is available.
    NoDevice,
}

/// The best capture format among `offered`: 32-bit float, else 16-bit
/// integer, else 32-bit integer, else 8-bit integer.
pub open spec fn best_format(offered: Seq<SampleFormat>) -> Option<SampleFormat> {
    if offered.contains(SampleFormat::F32) {
        Some(SampleFormat::F32)
    } else if offered.contains(SampleFormat::I16) {
        Some(SampleFormat::I16)
    } else if offered.contains(SampleFormat::I32) {
        Some(SampleFormat::I32)
    } else if offered.contains(SampleFormat::I8) {
        Some(SampleFormat::I8)
    } else {
        None
    }
}

/// The best format is offered, can open a stream, and no offered format that
/// can is preferred to it.
pub proof fn lemma_best_format(offered: Seq<SampleFormat>)
    ensures
        best_format(offered) matches Some(f) ==> {
            &&& offered.contains(f)
            &&& is_capture_format(f)
            &&& forall|g: SampleFormat|
                offered.contains(g) && is_capture_format(g) ==> preference(f)->0 <= preference(
                    g,
                )->0
        },
        best_format(offered) is None ==> forall|g: SampleFormat|
            offered.contains(g) ==> !is_capture_format(g),
{
}

fn offers(offered: &Vec<SampleFormat>, f: SampleFormat) -> (r: bool)
    ensures
        r == offered@.contains(f),
{
    let mut i: usize = 0;
    while i < offered.len()
        invariant
            i <= offered.len(),
            forall|j: int| 0 <= j < i ==> offered@[j] != f,
        decreases offered.len() - i,
    {
        if offered[i] == f {
            return true;
        }
        i = i + 1;
    }
    false
}

/// Picks the format to open a capture stream with among those a device
/// offers: 32-bit float, else 16-bit integer, else 32-bit integer, else
/// 8-bit integer; fails where the device offers none of them.
pub fn negotiate_format(offered: &Vec<SampleFormat>) -> (r: Result<SampleFormat, StreamBuildError>)
    ensures
        match best_format(offered@) {
            Some(f) => r == Ok::<SampleFormat, StreamBuildError>(f),
            None => r == Err::<SampleFormat, StreamBuildError>(StreamBuildError::UnsupportedFormat),
        },
{
    if offers(offered, SampleFormat::F32) {
        Ok(SampleFormat::F32)
    } else if offers(offered, SampleFormat::I16) {
        Ok(SampleFormat::I16)
    } else if offers(offered, SampleFormat::I32) {
        Ok(SampleFormat::I32)
    } else if offers(offered, SampleFormat::I8) {
        Ok(SampleFormat::I8)
    } else {
        Err(StreamBuildError::UnsupportedFormat)
    }
}

/// The name under which the transcoder reads raw samples of a capture format.
pub open spec fn transcoder_format(f: SampleFormat) -> Seq<char>
    recommends
        is_capture_format(f),
{
    match f {
        SampleFormat::I8 => "s8"@,
        SampleFormat::I16 => "s16le"@,
        SampleFormat::I32 => "s32le"@,
        _ => "f32le"@,
    }
}

/// The transcoder's name for a capture format.
pub fn transcoder_format_name(f: SampleFormat) -> (r: &'static str)
    requires
        is_capture_format(f),
    ensures
        r@ == transcoder_format(f),
{
    match f {
        SampleFormat::I8 => "s8",
        SampleFormat::I16 => "s16le",
        SampleFormat::I32 => "s32le",
        _ => "f32le",
    }
}

/// The bytes of a 16-bit sample, least significant first.
pub open spec fn le_i16(x: i16) -> Seq<u8> {
    let u: int = if x < 0 { x + 0x10000 } else { x as int };
    seq![(u % 0x100) as u8, (u / 0x100) as u8]
}

/// The bytes of a 32-bit sample, least significant first.
pub open spec fn le_i32(x: i32) -> Seq<u8> {
    let u: int = if x < 0 { x + 0x1_0000_0000 } else { x as int };
    seq![
        (u % 0x100) as u8,
        (u / 0x100 % 0x100) as u8,
        (u / 0x1_0000 % 0x100) as u8,
        (u / 0x100_0000) as u8,
    ]
}

/// The byte of an 8-bit sample.
pub open spec fn byte_i8(x: i8) -> u8 {
    if x < 0 { (x + 0x100) as u8 } else { x as u8 }
}

pub open spec fn bytes_i16(s: Seq<i16>) -> Seq<u8>
    decreases s.len(),
{
    if s.len() == 0 {
        seq![]
    } else {
        bytes_i16(s.drop_last()) + le_i16(s.last())
    }
}

pub open spec fn bytes_i32(s: Seq<i32>) -> Seq<u8>
    decreases s.len(),
{
    if s.len() == 0 {
        seq![]
    } else {
        bytes_i32(s.drop_last()) + le_i32(s.last())
    }
}

/// Relies on byteorder's `LittleEndian::write_i16_into`: each sample as two
/// bytes, least significant first; it panics unless the target holds exactly
/// two bytes a sample, which the buffer made here does.
#[verifier::external_body]
fn write_i16_le(samples: &Vec<i16>) -> (r: Vec<u8>)
    requires
        samples.len() <= usize::MAX / 4,
    ensures
        r@ == bytes_i16(samples@),
{
    let mut bytes = vec![0u8; samples.len() * 2];
    LittleEndian::write_i16_into(samples, &mut bytes);
    bytes
}

/// Relies on byteorder's `LittleEndian::write_i32_into`: each sample as four
/// bytes, least significant first; it panics unless the target holds exactly
/// four bytes a sample, which the buffer made here does.
#[verifier::external_body]
fn write_i32_le(samples: &Vec<i32>) -> (r: Vec<u8>)
    requires
        samples.len() <= usize::MAX / 4,
    ensures
        r@ == bytes_i32(samples@),
{
    let mut bytes = vec![0u8; samples.len() * 4];
    LittleEndian::write_i32_into(samples, &mut bytes);
    bytes
}

/// One buffer of interleaved integer samples, as a capture stream delivers it.
pub enum SampleBuffer {
    I8(Vec<i8>),
    I16(Vec<i16>),
    I32(Vec<i32>),
}

impl SampleBuffer {
    pub open spec fn sample_count(&self) -> nat {
        match self {
            SampleBuffer::I8(v) => v.len() as nat,
            SampleBuffer::I16(v) => v.len() as nat,
            SampleBuffer::I32(v) => v.len() as nat,
        }
    }

    /// The raw bytes the transcoder reads for this buffer.
    pub open spec fn raw_bytes(&self) -> Seq<u8> {
        match self {
            SampleBuffer::I8(v) => v@.map_values(|x: i8| byte_i8(x)),
            SampleBuffer::I16(v) => bytes_i16(v@),
            SampleBuffer::I32(v) => bytes_i32(v@),
        }
    }
}

/// Serialises a captured buffer into the raw little-endian bytes that the
/// transcoder reads from its standard input.
pub fn encode_samples(buffer: &SampleBuffer) -> (r: Vec<u8>)
    requires
        buffer.sample_count() <= usize::MAX / 4,
    ensures
        r@ == buffer.raw_bytes(),
{
    match buffer {
        SampleBuffer::I8(v) => {
            let mut out: Vec<u8> = Vec::new();
            let mut i: usize = 0;
            while i < v.len()
                invariant
                    i <= v.len(),
                    out@ == v@.take(i as int).map_values(|x: i8| byte_i8(x)),
                decreases v.len() - i,
            {
                let x = v[i];
                let b: u8 = if x < 0 {
                    (x as i16 + 256) as u8
                } else {
                    x as u8
                };
                out.push(b);
                i = i + 1;
                assert(out@ =~= v@.take(i as int).map_values(|x: i8| byte_i8(x)));
            }
            assert(v@.take(v.len() as int) =~= v@);
            out
        },
        SampleBuffer::I16(v) => write_i16_le(v),
        SampleBuffer::I32(v) => write_i32_le(v),
    }
}

} // verus!
