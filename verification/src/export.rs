//! The export policy: turning a selected range into encoder invocation
//! parameters, and deciding, from the source file's size and the clip's
//! length, whether the clip is cut directly or re-encoded in two passes at a
//! computed bitrate.

use vstd::prelude::*;

use crate::frac::{frac_to_ms, spec_frac_to_ms, valid_frac, MAX_DURATION_MS};
use crate::timefmt::{seconds_label, spec_decimal, spec_seconds, fmt_u64};

verus! {

/// A source file larger than this many bytes is re-encoded to a target size
/// rather than cut directly.
pub const SIZE_THRESHOLD_BYTES: u64 = 10_000_000;

/// The target output size, written as the video bitrate (in kbit/s) that a
/// one-minute clip would be given; a shorter clip gets proportionally more,
/// a longer one less.
pub const MINUTE_BUDGET_KBPS: u64 = 1400;

/// Fraction of the size budget the video stream may use, in percent; the
/// rest absorbs container overhead.
pub const BITRATE_HEADROOM_PCT: u64 = 93;

/// The audio stream is given a tenth of the video bitrate.
pub const AUDIO_SHARE_DIV: u64 = 10;

/// How the export runs: a direct cut, or a two-pass re-encode at the given
/// bitrates (in bit/s).
#[derive(PartialEq, Eq, Structural, Clone, Copy, Debug)]
pub enum EncodePlan {
    /// Cut the clip out without re-encoding.
    Direct,
    /// Analyze in a first pass, then encode to the target bitrates.
    TwoPass { video_bps: u64, audio_bps: u64 },
}

/// The video bitrate, in bit/s, that fits the target size for a clip of
/// `clip_ms` milliseconds: the one-minute budget scaled by the clip's length,
/// less the headroom.
pub open spec fn spec_video_bps(clip_ms: int) -> int {
    (MINUTE_BUDGET_KBPS as int * 1000 * BITRATE_HEADROOM_PCT as int / 100 * 60_000) / clip_ms
}

/// The audio bitrate, in bit/s, paired with a video bitrate.
pub open spec fn spec_audio_bps(clip_ms: int) -> int {
    spec_video_bps(clip_ms) / (AUDIO_SHARE_DIV as int)
}

/// The absolute positions the encoder is invoked with: where the clip starts
/// and how long it runs, both in milliseconds.
pub fn export_params(start: u32, end: u32, duration_ms: u64) -> (r: (u64, u64))
    requires
        valid_frac(start),
        valid_frac(end),
        start <= end,
        duration_ms <= MAX_DURATION_MS,
    ensures
        r.0 == spec_frac_to_ms(start as int, duration_ms as int),
        r.1 == spec_frac_to_ms((end - start) as int, duration_ms as int),
        r.0 <= duration_ms && r.1 <= duration_ms,
{
    let seek_ms: u64 = frac_to_ms(start, duration_ms);
    let clip_ms: u64 = frac_to_ms(end - start, duration_ms);
    (seek_ms, clip_ms)
}

/// Decides the export strategy for a source file of `source_size_bytes`
/// bytes and a clip of `clip_ms` milliseconds: a direct cut up to the size
/// threshold, beyond it a two-pass re-encode whose bitrates meet the target
/// size.
pub fn encode_plan(source_size_bytes: u64, clip_ms: u64) -> (r: EncodePlan)
    requires
        clip_ms > 0,
    ensures
        source_size_bytes <= SIZE_THRESHOLD_BYTES ==> r == EncodePlan::Direct,
        source_size_bytes > SIZE_THRESHOLD_BYTES ==> r == (EncodePlan::TwoPass {
            video_bps: spec_video_bps(clip_ms as int) as u64,
            audio_bps: spec_audio_bps(clip_ms as int) as u64,
        }),
        r matches EncodePlan::TwoPass { video_bps, audio_bps } ==> audio_bps <= video_bps
            <= MINUTE_BUDGET_KBPS * 1000 * BITRATE_HEADROOM_PCT / 100 * 60_000,
{
    if source_size_bytes <= SIZE_THRESHOLD_BYTES {
        EncodePlan::Direct
    } else {
        let budget: u64 = MINUTE_BUDGET_KBPS * 1000 * BITRATE_HEADROOM_PCT / 100 * 60_000;
        let video_bps: u64 = budget / clip_ms;
        let audio_bps: u64 = video_bps / AUDIO_SHARE_DIV;
        proof {
            vstd::arithmetic::div_mod::lemma_div_is_ordered_by_denominator(
                budget as int,
                1,
                clip_ms as int,
            );
            vstd::arithmetic::div_mod::lemma_div_is_ordered_by_denominator(
                video_bps as int,
                1,
                AUDIO_SHARE_DIV as int,
            );
        }
        EncodePlan::TwoPass { video_bps, audio_bps }
    }
}

/// A bitrate argument: the value rounded to whole kbit/s, with a `k` suffix.
pub open spec fn spec_kbps(bps: int) -> Seq<char> {
    spec_decimal(((bps + 500) / 1000) as nat) + seq!['k']
}

/// Renders a bitrate in bit/s as the encoder's `<n>k` form, rounded to the
/// nearest kbit/s.
pub fn kbps_label(bps: u64) -> (r: String)
    requires
        bps + 500 <= u64::MAX,
    ensures
        r@ == spec_kbps(bps as int),
{
    let mut s: String = fmt_u64((bps + 500) / 1000);
    proof {
        reveal_strlit("k");
    }
    s.append("k");
    proof {
        assert(s@ =~= spec_kbps(bps as int));
    }
    s
}

/// The arguments that cut the clip: seek to the start, take the clip's
/// length.
pub open spec fn spec_trim_args(seek_ms: int, clip_ms: int) -> Seq<Seq<char>> {
    seq!["-ss"@, spec_seconds(seek_ms as nat), "-t"@, spec_seconds(clip_ms as nat)]
}

/// Builds the trim arguments of every export invocation: `-ss <start
/// seconds> -t <clip seconds>`.
pub fn trim_args(seek_ms: u64, clip_ms: u64) -> (r: Vec<String>)
    ensures
        r.deep_view() == spec_trim_args(seek_ms as int, clip_ms as int),
{
    let mut out: Vec<String> = Vec::new();
    out.push(String::from_str("-ss"));
    out.push(seconds_label(seek_ms));
    out.push(String::from_str("-t"));
    out.push(seconds_label(clip_ms));
    proof {
        assert(out.deep_view() =~~= spec_trim_args(seek_ms as int, clip_ms as int));
    }
    out
}

/// The arguments of the analysis pass of a two-pass re-encode: the trim,
/// audio dropped, the video codec at the computed bitrate, written to no
/// container.
pub open spec fn spec_first_pass_args(
    seek_ms: int,
    clip_ms: int,
    video_bps: int,
    audio_bps: int,
) -> Seq<Seq<char>> {
    spec_trim_args(seek_ms, clip_ms) + seq![
        "-an"@,
        "-c:v"@,
        "libx264"@,
        "-r"@,
        "30"@,
        "-b:v"@,
        spec_kbps(video_bps - audio_bps),
        "-preset"@,
        "veryslow"@,
        "-pass"@,
        "1"@,
        "-f"@,
        "rawvideo"@,
    ]
}

/// Builds the analysis-pass arguments of a two-pass re-encode.
pub fn first_pass_args(seek_ms: u64, clip_ms: u64, video_bps: u64, audio_bps: u64) -> (r: Vec<
    String,
>)
    requires
        audio_bps <= video_bps,
        video_bps + 500 <= u64::MAX,
    ensures
        r.deep_view() == spec_first_pass_args(
            seek_ms as int,
            clip_ms as int,
            video_bps as int,
            audio_bps as int,
        ),
{
    let mut out: Vec<String> = trim_args(seek_ms, clip_ms);
    out.push(String::from_str("-an"));
    out.push(String::from_str("-c:v"));
    out.push(String::from_str("libx264"));
    out.push(String::from_str("-r"));
    out.push(String::from_str("30"));
    out.push(String::from_str("-b:v"));
    out.push(kbps_label(video_bps - audio_bps));
    out.push(String::from_str("-preset"));
    out.push(String::from_str("veryslow"));
    out.push(String::from_str("-pass"));
    out.push(String::from_str("1"));
    out.push(String::from_str("-f"));
    out.push(String::from_str("rawvideo"));
    proof {
        assert(out.deep_view() =~~= spec_first_pass_args(
            seek_ms as int,
            clip_ms as int,
            video_bps as int,
            audio_bps as int,
        ));
    }
    out
}

/// The extra arguments of the final pass of a two-pass re-encode: the audio
/// codec at its bitrate, the video codec at the computed bitrate, as the
/// second pass. They follow the trim arguments in the final invocation.
pub open spec fn spec_final_pass_args(video_bps: int, audio_bps: int) -> Seq<Seq<char>> {
    seq![
        "-c:a"@,
        "aac"@,
        "-aac_coder"@,
        "twoloop"@,
        "-b:a"@,
        spec_kbps(audio_bps),
        "-c:v"@,
        "libx264"@,
        "-b:v"@,
        spec_kbps(video_bps - audio_bps),
        "-preset"@,
        "veryslow"@,
        "-pass"@,
        "2"@,
    ]
}

/// Builds the re-encode arguments appended to the final invocation of a
/// two-pass export.
pub fn final_pass_args(video_bps: u64, audio_bps: u64) -> (r: Vec<String>)
    requires
        audio_bps <= video_bps,
        video_bps + 500 <= u64::MAX,
    ensures
        r.deep_view() == spec_final_pass_args(video_bps as int, audio_bps as int),
{
    let mut out: Vec<String> = Vec::new();
    out.push(String::from_str("-c:a"));
    out.push(String::from_str("aac"));
    out.push(String::from_str("-aac_coder"));
    out.push(String::from_str("twoloop"));
    out.push(String::from_str("-b:a"));
    out.push(kbps_label(audio_bps));
    out.push(String::from_str("-c:v"));
    out.push(String::from_str("libx264"));
    out.push(String::from_str("-b:v"));
    out.push(kbps_label(video_bps - audio_bps));
    out.push(String::from_str("-preset"));
    out.push(String::from_str("veryslow"));
    out.push(String::from_str("-pass"));
    out.push(String::from_str("2"));
    proof {
        assert(out.deep_view() =~~= spec_final_pass_args(video_bps as int, audio_bps as int));
    }
    out
}

} // verus!
