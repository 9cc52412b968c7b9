//! Reading a segment file: its header must describe mono 16-bit integer PCM,
//! and its samples are what the recognition engine is fed.

use vstd::prelude::*;

verus! {

#[verifier::external_type_specification]
#[verifier::external_body]
pub struct ExWavError(hound::Error);

/// The header of a WAVE file, as `(channels, sample rate, bits per sample,
/// whether samples are floating point)`, or `None` where the bytes are no
/// readable WAVE file.
pub uninterp spec fn wav_header(bytes: Seq<u8>) -> Option<(u16, u32, u16, bool)>;

/// The 16-bit samples of a WAVE file, interleaved, or `None` where they cannot
/// be read as 16-bit integers.
pub uninterp spec fn wav_samples_i16(bytes: Seq<u8>) -> Option<Seq<i16>>;

/// The format a segment's header gives.
#[derive(Clone, Copy, Debug, PartialEq, Eq, Structural)]
pub struct WavFormat {
    pub channels: u16,
    pub sample_rate: u32,
    pub bits_per_sample: u16,
    pub is_float: bool,
}

impl WavFormat {
    pub open spec fn as_tuple(self) -> (u16, u32, u16, bool) {
        (self.channels, self.sample_rate, self.bits_per_sample, self.is_float)
    }
}

/// Relies on hound's `WavReader::new` and `WavReader::spec`: reading a WAVE
/// header held in memory depends on the bytes alone.
#[verifier::external_body]
fn read_wav_format(bytes: &Vec<u8>) -> (r: Result<WavFormat, hound::Error>)
    ensures
        match r {
            Ok(f) => wav_header(bytes@) == Some(f.as_tuple()),
            Err(_) => wav_header(bytes@) is None,
        },
{
    let spec = hound::WavReader::new(bytes.as_slice())?.spec();
    Ok(WavFormat {
        channels: spec.channels,
        sample_rate: spec.sample_rate,
        bits_per_sample: spec.bits_per_sample,
        is_float: match spec.sample_format {
            hound::SampleFormat::Float => true,
            hound::SampleFormat::Int => false,
        },
    })
}

/// Relies on hound's `WavReader::samples::<i16>`: decoding the samples of a
/// WAVE file held in memory depends on the bytes alone.
#[verifier::external_body]
fn read_wav_samples_i16(bytes: &Vec<u8>) -> (r: Result<Vec<i16>, hound::Error>)
    ensures
        match r {
            Ok(v) => wav_samples_i16(bytes@) == Some(v@),
            Err(_) => wav_samples_i16(bytes@) is None,
        },
{
    let mut reader = hound::WavReader::new(bytes.as_slice())?;
    reader.samples::<i16>().collect()
}

/// Why a segment cannot be transcribed.
#[derive(Clone, Copy, Debug, PartialEq, Eq, Structural)]
pub enum SegmentReadError {
    /// The file is no readable WAVE file, or is cut short.
    Malformed,
    /// The segment has more than one channel.
    NotMono,
    /// The segment's samples are not 16-bit integers.
    NotInt16,
}

/// What checking a segment's header gives.
pub open spec fn format_check(f: (u16, u32, u16, bool)) -> Result<(), SegmentReadError> {
    if f.0 != 1 {
        Err(SegmentReadError::NotMono)
    } else if f.3 || f.2 != 16 {
        Err(SegmentReadError::NotInt16)
    } else {
        Ok(())
    }
}

/// Checks that a segment is mono 16-bit integer PCM.
pub fn check_segment_format(format: WavFormat) -> (r: Result<(), SegmentReadError>)
    ensures
        r == format_check(format.as_tuple()),
{
    if format.channels != 1 {
        Err(SegmentReadError::NotMono)
    } else if format.is_float || format.bits_per_sample != 16 {
        Err(SegmentReadError::NotInt16)
    } else {
        Ok(())
    }
}

/// What decoding the segment file `bytes` gives.
pub open spec fn decoded(bytes: Seq<u8>) -> Result<Seq<i16>, SegmentReadError> {
    match wav_header(bytes) {
        None => Err(SegmentReadError::Malformed),
        Some(f) => match format_check(f) {
            Err(e) => Err(e),
            Ok(_) => match wav_samples_i16(bytes) {
                None => Err(SegmentReadError::Malformed),
                Some(s) => Ok(s),
            },
        },
    }
}

/// Reads the samples of a segment file after checking that it holds mono
/// 16-bit integer PCM.
pub fn decode_segment(bytes: &Vec<u8>) -> (r: Result<Vec<i16>, SegmentReadError>)
    ensures
        match decoded(bytes@) {
            Ok(s) => r matches Ok(v) && v@ == s,
            Err(e) => r == Err::<Vec<i16>, SegmentReadError>(e),
        },
{
    let format = match read_wav_format(bytes) {
        Ok(f) => f,
        Err(_) => return Err(SegmentReadError::Malformed),
    };
    match check_segment_format(format) {
        Err(e) => return Err(e),
        Ok(()) => {},
    }
    match read_wav_samples_i16(bytes) {
        Ok(v) => Ok(v),
        Err(_) => Err(SegmentReadError::Malformed),
    }
}

/// The samples of consecutive segments, one after the other.
pub open spec fn concatenation(segments: Seq<Seq<i16>>) -> Seq<i16>
    decreases segments.len(),
{
    if segments.len() == 0 {
        seq![]
    } else {
        concatenation(segments.drop_last()) + segments.last()
    }
}

/// The samples of a stream's segments joined in manifest order.
pub fn concat_samples(segments: &Vec<Vec<i16>>) -> (r: Vec<i16>)
    ensures
        r@ == concatenation(segments@.map_values(|s: Vec<i16>| s@)),
{
    let ghost whole = segments@.map_values(|s: Vec<i16>| s@);
    let mut out: Vec<i16> = Vec::new();
    let mut i: usize = 0;
    while i < segments.len()
        invariant
            i <= segments.len(),
            whole == segments@.map_values(|s: Vec<i16>| s@),
            out@ == concatenation(whole.take(i as int)),
        decreases segments.len() - i,
    {
        assert(whole.take(i + 1).drop_last() =~= whole.take(i as int));
        let seg = &segments[i];
        let ghost before = out@;
        let mut k: usize = 0;
        while k < seg.len()
            invariant
                k <= seg.len(),
                out@ == before + seg@.take(k as int),
            decreases seg.len() - k,
        {
            out.push(seg[k]);
            assert(seg@.take(k + 1) =~= seg@.take(k as int).push(seg@[k as int]));
            assert(out@ =~= before + seg@.take(k + 1));
            k = k + 1;
        }
        assert(seg@.take(seg.len() as int) =~= seg@);
        i = i + 1;
    }
    assert(whole.take(segments.len() as int) =~= whole);
    out
}


/// A recording cut into segments of `len` samples, the last one holding
/// what is left.
pub open spec fn segmented(recording: Seq<i16>, len: nat) -> Seq<Seq<i16>>
    decreases recording.len(),
{
    if len == 0 || recording.len() == 0 {
        seq![]
    } else if recording.len() <= len {
        seq![recording]
    } else {
        seq![recording.take(len as int)] + segmented(recording.skip(len as int), len)
    }
}

proof fn lemma_concatenation_prepend(a: Seq<i16>, rest: Seq<Seq<i16>>)
    ensures
        concatenation(seq![a] + rest) == a + concatenation(rest),
    decreases rest.len(),
{
    if rest.len() == 0 {
        assert(seq![a] + rest =~= seq![a]);
        assert(seq![a].drop_last() =~= Seq::<Seq<i16>>::empty());
        assert(concatenation(Seq::<Seq<i16>>::empty()) == Seq::<i16>::empty());
        assert(Seq::<i16>::empty() + a =~= a);
        assert(concatenation(seq![a]) =~= a);
    } else {
        assert((seq![a] + rest).drop_last() =~= seq![a] + rest.drop_last());
        lemma_concatenation_prepend(a, rest.drop_last());
        assert(concatenation(seq![a] + rest) =~= a + concatenation(rest));
    }
}

/// Cutting a recording into segments and joining them again in order gives
/// the recording back, sample for sample; every segment but the last is
/// full, the last holds between one sample and a full segment, and there are
/// as many segments as the length divided by the segment size, rounded up.
pub proof fn lemma_segment_round_trip(recording: Seq<i16>, len: nat)
    requires
        len > 0,
    ensures
        concatenation(segmented(recording, len)) == recording,
        segmented(recording, len).len() == (recording.len() + len - 1) / len as int,
        forall|i: int|
            0 <= i < segmented(recording, len).len() - 1 ==> (#[trigger] segmented(
                recording,
                len,
            )[i]).len() == len,
        segmented(recording, len).len() > 0 ==> 0 < segmented(recording, len).last().len() <= len,
    decreases recording.len(),
{
    let n = recording.len();
    if n == 0 {
        assert(concatenation(seq![]) == Seq::<i16>::empty());
        assert(recording =~= Seq::<i16>::empty());
        assert((0 + len - 1) / len as int == 0) by (nonlinear_arith)
            requires
                len > 0,
        ;
    } else if n <= len {
        let one: Seq<Seq<i16>> = seq![recording];
        assert(one.drop_last() =~= Seq::<Seq<i16>>::empty());
        assert(concatenation(Seq::<Seq<i16>>::empty()) == Seq::<i16>::empty());
        assert(Seq::<i16>::empty() + recording =~= recording);
        assert(concatenation(one) =~= recording);
        assert((n + len - 1) / len as int == 1) by (nonlinear_arith)
            requires
                len > 0,
                0 < n <= len,
        ;
    } else {
        let head = recording.take(len as int);
        let tail = recording.skip(len as int);
        lemma_segment_round_trip(tail, len);
        lemma_concatenation_prepend(head, segmented(tail, len));
        assert(head + tail =~= recording);
        let m = tail.len();
        assert(m == n - len);
        assert((n + len - 1) / len as int == 1 + (m + len - 1) / len as int) by (nonlinear_arith)
            requires
                len > 0,
                m == n - len,
                n > len,
        {
            assert(n + len - 1 == (m + len - 1) + len);
        }
        let segs = segmented(recording, len);
        assert(segs == seq![head] + segmented(tail, len));
        assert forall|i: int| 0 <= i < segs.len() - 1 implies (#[trigger] segs[i]).len() == len by {
            if i > 0 {
                assert(segs[i] == segmented(tail, len)[i - 1]);
            }
        }
    }
}

} // verus!
