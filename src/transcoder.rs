//! The command lines of the external transcoder: segmenting a live stream,
//! concatenating a stream's segments, and merging the two streams.

use vstd::prelude::*;
use crate::format::{is_capture_format, transcoder_format, transcoder_format_name, SampleFormat};
use crate::manifest::{views, SEGMENT_SECONDS};
use crate::text::{decimal, decimal_string};

verus! {

fn push_arg(args: &mut Vec<String>, a: &str)
    ensures
        views(final(args)@) == views(old(args)@).push(a@),
{
    args.push(String::from_str(a));
    assert(views(args@) =~= views(old(args)@).push(a@));
}

/// The filters a live stream goes through: a stereo downmix where it has more
/// than two channels, loudness normalisation, and resampling to 16 kHz.
pub open spec fn filter_chain(channels: nat) -> Seq<char> {
    (if channels > 2 {
        "pan=stereo|FL=FL+0.5*FC|FR=FR+0.5*FC,"@
    } else {
        seq![]
    }) + "loudnorm,"@ + "aresample=async=1:min_hard_comp=0.100000:first_pts=0:osr=16000"@
}

/// The filter chain of a live stream with `channels` channels.
pub fn filters(channels: u16) -> (r: String)
    ensures
        r@ == filter_chain(channels as nat),
{
    let mut r = String::new();
    if channels > 2 {
        r.append("pan=stereo|FL=FL+0.5*FC|FR=FR+0.5*FC,");
    }
    r.append("loudnorm,");
    r.append("aresample=async=1:min_hard_comp=0.100000:first_pts=0:osr=16000");
    assert(r@ =~= filter_chain(channels as nat));
    r
}

/// The arguments that make the transcoder read raw samples from its standard
/// input and cut them into mono 16 kHz 16-bit segments, listed in a manifest.
pub open spec fn segmenting_args_of(
    format: SampleFormat,
    sample_rate: nat,
    channels: nat,
    manifest: Seq<char>,
    pattern: Seq<char>,
) -> Seq<Seq<char>> {
    seq![
        "-f"@, transcoder_format(format),
        "-ar"@, decimal(sample_rate),
        "-ac"@, decimal(channels),
        "-thread_queue_size"@, "4096"@,
        "-i"@, "pipe:0"@,
        "-af"@, filter_chain(channels),
        "-ac"@, "1"@,
        "-c:a"@, "pcm_s16le"@,
        "-async"@, "1"@,
        "-f"@, "segment"@,
        "-segment_time"@, decimal(SEGMENT_SECONDS as nat),
        "-segment_time_delta"@, "0.01"@,
        "-segment_list"@, manifest,
        "-reset_timestamps"@, "1"@,
        pattern,
    ]
}

/// The transcoder's command line for one live stream of `format`,
/// `sample_rate` and `channels`, writing segments named by `pattern` and
/// listing them in `manifest`.
pub fn segmenting_args(
    format: SampleFormat,
    sample_rate: u32,
    channels: u16,
    manifest: &str,
    pattern: &str,
) -> (r: Vec<String>)
    requires
        is_capture_format(format),
    ensures
        views(r@) == segmenting_args_of(
            format,
            sample_rate as nat,
            channels as nat,
            manifest@,
            pattern@,
        ),
{
    let mut a: Vec<String> = Vec::new();
    push_arg(&mut a, "-f");
    push_arg(&mut a, transcoder_format_name(format));
    push_arg(&mut a, "-ar");
    let rate = decimal_string(sample_rate as u64);
    push_arg(&mut a, rate.as_str());
    push_arg(&mut a, "-ac");
    let ch = decimal_string(channels as u64);
    push_arg(&mut a, ch.as_str());
    push_arg(&mut a, "-thread_queue_size");
    push_arg(&mut a, "4096");
    push_arg(&mut a, "-i");
    push_arg(&mut a, "pipe:0");
    push_arg(&mut a, "-af");
    let f = filters(channels);
    push_arg(&mut a, f.as_str());
    push_arg(&mut a, "-ac");
    push_arg(&mut a, "1");
    push_arg(&mut a, "-c:a");
    push_arg(&mut a, "pcm_s16le");
    push_arg(&mut a, "-async");
    push_arg(&mut a, "1");
    push_arg(&mut a, "-f");
    push_arg(&mut a, "segment");
    push_arg(&mut a, "-segment_time");
    let secs = decimal_string(SEGMENT_SECONDS);
    push_arg(&mut a, secs.as_str());
    push_arg(&mut a, "-segment_time_delta");
    push_arg(&mut a, "0.01");
    push_arg(&mut a, "-segment_list");
    push_arg(&mut a, manifest);
    push_arg(&mut a, "-reset_timestamps");
    push_arg(&mut a, "1");
    push_arg(&mut a, pattern);
    assert(views(a@) =~= segmenting_args_of(
        format,
        sample_rate as nat,
        channels as nat,
        manifest@,
        pattern@,
    ));
    a
}

/// The arguments that join the segments a directive lists into one track,
/// without re-encoding.
pub open spec fn concat_args_of(directive: Seq<char>, output: Seq<char>) -> Seq<Seq<char>> {
    seq!["-f"@, "concat"@, "-safe"@, "0"@, "-i"@, directive, "-c"@, "copy"@, output]
}

/// The transcoder's command line that concatenates the segments listed in the
/// directive file `directive` into `output`.
pub fn concat_args(directive: &str, output: &str) -> (r: Vec<String>)
    ensures
        views(r@) == concat_args_of(directive@, output@),
{
    let mut a: Vec<String> = Vec::new();
    push_arg(&mut a, "-f");
    push_arg(&mut a, "concat");
    push_arg(&mut a, "-safe");
    push_arg(&mut a, "0");
    push_arg(&mut a, "-i");
    push_arg(&mut a, directive);
    push_arg(&mut a, "-c");
    push_arg(&mut a, "copy");
    push_arg(&mut a, output);
    assert(views(a@) =~= concat_args_of(directive@, output@));
    a
}

/// The arguments that mix the two combined tracks into one mono track, each
/// at half weight.
pub open spec fn merge_args_of(
    input_track: Seq<char>,
    output_track: Seq<char>,
    merged: Seq<char>,
) -> Seq<Seq<char>> {
    seq![
        "-i"@, input_track,
        "-i"@, output_track,
        "-filter_complex"@, "[0:a][1:a]amerge=inputs=2,pan=mono|c0=.5*c0+.5*c1[aout]"@,
        "-map"@, "[aout]"@,
        "-c:a"@, "pcm_s16le"@,
        merged,
    ]
}

/// The transcoder's command line that merges the combined input and output
/// tracks into the conversation's mono track `merged`.
pub fn merge_args(input_track: &str, output_track: &str, merged: &str) -> (r: Vec<String>)
    ensures
        views(r@) == merge_args_of(input_track@, output_track@, merged@),
{
    let mut a: Vec<String> = Vec::new();
    push_arg(&mut a, "-i");
    push_arg(&mut a, input_track);
    push_arg(&mut a, "-i");
    push_arg(&mut a, output_track);
    push_arg(&mut a, "-filter_complex");
    push_arg(&mut a, "[0:a][1:a]amerge=inputs=2,pan=mono|c0=.5*c0+.5*c1[aout]");
    push_arg(&mut a, "-map");
    push_arg(&mut a, "[aout]");
    push_arg(&mut a, "-c:a");
    push_arg(&mut a, "pcm_s16le");
    push_arg(&mut a, merged);
    assert(views(a@) =~= merge_args_of(input_track@, output_track@, merged@));
    a
}

/// What the transcoder reads on its standard input as the order to finish.
pub fn quit_directive() -> (r: &'static str)
    ensures
        r@ == "q\n"@,
{
    "q\n"
}

} // verus!
