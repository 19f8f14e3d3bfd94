//! Cue points and cuesheet text generation.
//!
//! A cuesheet holds at most 99 tracks, so a render with more content entries
//! produces several parts. Within a part the displayed track number wraps to
//! the 1..=99 range; the cue index itself is the global monotonic entry
//! counter. An `INDEX 01` position is given in minutes:seconds:frames at 75
//! frames per second, and a raw start-sample remark allows lossless
//! reconstruction.

use vstd::prelude::*;

use crate::numfmt::{dec, dec2, push_dec, push_dec2};

verus! {

/// One sample-accurate marker for the start of a content entry.
#[derive(Debug, Clone)]
pub struct CuePoint {
    /// The global monotonic entry counter, starting at 1.
    pub index: u32,
    /// The entry's start position in samples, one past the previous entry's
    /// last accumulated sample.
    pub start_sample: u64,
    /// The start position in 75-per-second frames.
    pub start_frame: u64,
    /// The start position rounded to milliseconds.
    pub timestamp_ms: u64,
    /// The entry's resolved title.
    pub title: String,
}

/// The cuesheet texts (one per part) and the structured cue entries of one
/// assembled mix.
#[derive(Debug, Clone)]
pub struct CueData {
    pub cuesheets: Vec<String>,
    pub cues: Vec<CuePoint>,
}

/// Saturation to the `u32` range, as a float-to-`u32` cast behaves.
pub open spec fn sat_u32(x: nat) -> nat {
    if x > 0xffff_ffff {
        0xffff_ffff
    } else {
        x
    }
}

/// Saturation to the `u64` range.
pub open spec fn sat_u64(x: nat) -> nat {
    if x > 0xffff_ffff_ffff_ffff {
        0xffff_ffff_ffff_ffff
    } else {
        x
    }
}

/// The minutes field of a sample position: whole seconds, saturated to
/// `u32`, divided by 60.
pub open spec fn msf_minutes(sample: nat, rate: nat) -> nat {
    if rate == 0 {
        0
    } else {
        sat_u32(sample / rate) / 60
    }
}

/// The seconds field of a sample position.
pub open spec fn msf_seconds(sample: nat, rate: nat) -> nat {
    if rate == 0 {
        0
    } else {
        sat_u32(sample / rate) % 60
    }
}

/// The frames field of a sample position: the fractional second expressed in
/// 75ths, rounded to the nearest frame.
pub open spec fn msf_frames(sample: nat, rate: nat) -> nat {
    if rate == 0 {
        0
    } else {
        ((sample % rate) * 150 + rate) / (2 * rate)
    }
}

/// Converts a sample stamp into the minutes, seconds and frames of the
/// cuesheet `INDEX` format, at 75 frames per second.
pub fn sample_to_msf_time(sample: u64, sample_rate: u32) -> (r: (u32, u32, u32))
    ensures
        r.0 == msf_minutes(sample as nat, sample_rate as nat),
        r.1 == msf_seconds(sample as nat, sample_rate as nat),
        r.2 == msf_frames(sample as nat, sample_rate as nat),
{
    if sample_rate == 0 {
        return (0, 0, 0);
    }
    let rate = sample_rate as u64;
    let whole: u64 = sample / rate;
    let ts32: u32 = if whole > 0xffff_ffff {
        0xffff_ffff
    } else {
        whole as u32
    };
    let minutes = ts32 / 60;
    let seconds = ts32 % 60;
    let rem: u64 = sample % rate;
    let frames64: u64 = (rem * 150 + rate) / (2 * rate);
    proof {
        assert((rem as nat) * 150 + rate <= 0xffff_ffffnat * 150 + 0xffff_ffff)
            by (nonlinear_arith)
            requires
                rem < 0x1_0000_0000,
                rate < 0x1_0000_0000,
        ;
        assert(((rem as int) * 150 + rate) / (2 * (rate as int)) <= 76) by (nonlinear_arith)
            requires
                rem < rate,
                0 < rate,
        ;
    }
    (minutes, seconds, frames64 as u32)
}

/// The `MM:SS:FF` rendering of a time, each field zero-padded to two digits.
pub open spec fn msf_text(m: nat, s: nat, f: nat) -> Seq<char> {
    dec2(m) + ":"@ + dec2(s) + ":"@ + dec2(f)
}

/// Formats a minutes/seconds/frames triple as `MM:SS:FF`.
pub fn format_msf_time(msf: (u32, u32, u32)) -> (r: String)
    ensures
        r@ == msf_text(msf.0 as nat, msf.1 as nat, msf.2 as nat),
{
    let mut s = String::new();
    push_dec2(&mut s, msf.0 as u64);
    s.append(":");
    push_dec2(&mut s, msf.1 as u64);
    s.append(":");
    push_dec2(&mut s, msf.2 as u64);
    proof {
        assert(s@ =~= msf_text(msf.0 as nat, msf.1 as nat, msf.2 as nat));
    }
    s
}

/// The displayed track number of a global counter: wrapped into 1..=99.
pub open spec fn wrapped_track_number(counter: u32) -> nat {
    ((((counter - 1) as int) % 99) + 1) as nat
}

/// The displayed track number always lies in 1..=99, and wraps back to 1
/// on the hundredth entry while the underlying counter keeps rising.
pub proof fn lemma_wrapped_track_number(counter: u32)
    requires
        counter >= 1,
    ensures
        1 <= wrapped_track_number(counter) <= 99,
        (counter - 1) % 99 == 0 ==> wrapped_track_number(counter) == 1,
        wrapped_track_number(100) == 1,
{
}

/// One `TRACK` block of a cuesheet.
pub open spec fn cue_block(counter: u32, title: Seq<char>, sample: nat, rate: nat) -> Seq<char> {
    "  TRACK "@ + dec2(wrapped_track_number(counter)) + " AUDIO\n"@ + "    TITLE \""@ + title
        + "\"\n"@ + "    INDEX 01 "@ + msf_text(
        msf_minutes(sample, rate),
        msf_seconds(sample, rate),
        msf_frames(sample, rate),
    ) + "\n"@ + "    REM STARTSAMPLE "@ + dec(sample) + "\n"@
}

/// The start position in milliseconds, rounded to nearest.
pub open spec fn timestamp_ms_of(sample: nat, rate: nat) -> nat {
    if rate == 0 {
        0
    } else {
        sat_u64((sample * 1000 + rate / 2) / rate)
    }
}

/// The start position in 75-per-second frames, truncated.
pub open spec fn start_frame_of(sample: nat, rate: nat) -> nat {
    if rate == 0 {
        0
    } else {
        sat_u64((sample * 75) / rate)
    }
}

/// Appends one track block to a cuesheet part and records the matching
/// structured cue point: the wrapped track number, the title, the `INDEX 01`
/// position at 75 frames per second, and the raw start sample.
pub fn append_cue_track(
    cuesheet: &mut String,
    cues: &mut Vec<CuePoint>,
    track_number: u32,
    title: &str,
    start_sample: u64,
    sample_rate: u32,
)
    requires
        track_number >= 1,
    ensures
        final(cuesheet)@ == old(cuesheet)@ + cue_block(
            track_number,
            title@,
            start_sample as nat,
            sample_rate as nat,
        ),
        final(cues)@.len() == old(cues)@.len() + 1,
        forall|i: int| 0 <= i < old(cues)@.len() ==> final(cues)@[i] == old(cues)@[i],
        ({
            let c = final(cues)@.last();
            &&& c.index == track_number
            &&& c.start_sample == start_sample
            &&& c.title@ == title@
            &&& c.start_frame == start_frame_of(start_sample as nat, sample_rate as nat)
            &&& c.timestamp_ms == timestamp_ms_of(start_sample as nat, sample_rate as nat)
        }),
{
    let msf = sample_to_msf_time(start_sample, sample_rate);
    let cuesheet_track_number: u32 = ((track_number - 1) % 99) + 1;
    cuesheet.append("  TRACK ");
    push_dec2(cuesheet, cuesheet_track_number as u64);
    cuesheet.append(" AUDIO\n");
    cuesheet.append("    TITLE \"");
    cuesheet.append(title);
    cuesheet.append("\"\n");
    cuesheet.append("    INDEX 01 ");
    push_dec2(cuesheet, msf.0 as u64);
    cuesheet.append(":");
    push_dec2(cuesheet, msf.1 as u64);
    cuesheet.append(":");
    push_dec2(cuesheet, msf.2 as u64);
    cuesheet.append("\n");
    cuesheet.append("    REM STARTSAMPLE ");
    push_dec(cuesheet, start_sample);
    cuesheet.append("\n");
    proof {
        assert(final(cuesheet)@ =~= old(cuesheet)@ + cue_block(
            track_number,
            title@,
            start_sample as nat,
            sample_rate as nat,
        ));
    }
    let start_frame: u64 = if sample_rate == 0 {
        0
    } else {
        let w: u128 = (start_sample as u128) * 75 / (sample_rate as u128);
        if w > 0xffff_ffff_ffff_ffff {
            0xffff_ffff_ffff_ffff
        } else {
            w as u64
        }
    };
    let timestamp_ms: u64 = if sample_rate == 0 {
        0
    } else {
        let w: u128 = ((start_sample as u128) * 1000 + (sample_rate as u128) / 2) / (
        sample_rate as u128);
        if w > 0xffff_ffff_ffff_ffff {
            0xffff_ffff_ffff_ffff
        } else {
            w as u64
        }
    };
    let title_string = title.to_owned();
    cues.push(
        CuePoint {
            index: track_number,
            start_sample,
            start_frame,
            timestamp_ms,
            title: title_string,
        },
    );
}

/// The number of cuesheet parts for an entry count: one per 99 entries,
/// rounded up.
pub open spec fn cuesheet_parts(n: nat) -> nat {
    (n + 98) / 99
}

/// Computes how many cuesheet parts a content program needs.
pub fn num_cuesheets(n_entries: usize) -> (r: usize)
    ensures
        r == cuesheet_parts(n_entries as nat),
{
    if n_entries == 0 {
        0
    } else {
        (n_entries - 1) / 99 + 1
    }
}

/// The header of one cuesheet part: performer, title and referenced output
/// file, from the playlist's artist and track-title tags with the playlist
/// file stem as fallback.
pub open spec fn cuesheet_header(
    artist: Option<Seq<char>>,
    track_title: Option<Seq<char>>,
    stem: Seq<char>,
) -> Seq<char> {
    let performer = match artist {
        Some(a) => a,
        None => "Unknown Artist"@,
    };
    let title = match track_title {
        Some(t) => t,
        None => stem,
    };
    "PERFORMER \""@ + performer + "\"\n"@ + "TITLE \""@ + title + "\"\n"@ + "FILE \""@ + title
        + ".flac\" WAVE\n"@
}

/// Builds the header of one cuesheet part.
pub fn build_cuesheet_header(
    artist: &Option<String>,
    track_title: &Option<String>,
    stem: &str,
) -> (r: String)
    ensures
        r@ == cuesheet_header(
            match artist {
                Some(a) => Some(a@),
                None => None,
            },
            match track_title {
                Some(t) => Some(t@),
                None => None,
            },
            stem@,
        ),
{
    let mut s = String::new();
    s.append("PERFORMER \"");
    match artist {
        Some(a) => s.append(a.as_str()),
        None => s.append("Unknown Artist"),
    }
    s.append("\"\n");
    s.append("TITLE \"");
    match track_title {
        Some(t) => s.append(t.as_str()),
        None => s.append(stem),
    }
    s.append("\"\n");
    s.append("FILE \"");
    match track_title {
        Some(t) => s.append(t.as_str()),
        None => s.append(stem),
    }
    s.append(".flac\" WAVE\n");
    proof {
        assert(s@ =~= cuesheet_header(
            match artist {
                Some(a) => Some(a@),
                None => None,
            },
            match track_title {
                Some(t) => Some(t@),
                None => None,
            },
            stem@,
        ));
    }
    s
}

} // verus!
