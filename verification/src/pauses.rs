//! Deterministic pause synthesis.
//!
//! A pause signature has the form `pause_<n>ms` or `pause_[<min>|<max>]ms`,
//! optionally followed by `| <title>`. A bracketed range draws one uniformly
//! distributed duration, inclusive of both bounds, from the shared random
//! source; a fixed duration is used as is. The buffer holds
//! `round(sample_rate * duration_ms / 1000)` samples of silence.
//! Whitespace trimming covers ASCII whitespace.

use vstd::prelude::*;

use crate::numfmt::parse_u32_spec;
use crate::playlist::is_pause_sig;
use crate::playlist::ref_is_pause;
use crate::strutil::{find_char, find_char_from, lemma_find_char_bounds, str_chars, sub_chars, trim, trim_chars};

verus! {

/// Synthesized silence for one pause occurrence.
#[derive(Debug, Clone)]
pub struct PauseData {
    /// The generator string, e.g. `pause_1000ms` or `pause_[8000|12000]ms`.
    pub signature: String,
    /// The resolved title, if any.
    pub title: Option<String>,
    /// The sampling rate the buffer was generated at.
    pub sample_rate: u32,
    /// The silence samples; every entry is zero.
    pub data: Vec<i32>,
}

/// A parsed pause duration: fixed, or drawn from an inclusive range.
pub enum PauseDuration {
    Fixed(u32),
    Range(u32, u32),
}

/// `str::parse::<u32>` with parse failures mapped to 0.
pub open spec fn parse_or_zero(s: Seq<char>) -> u32 {
    match parse_u32_spec(s) {
        Some(v) => v,
        None => 0u32,
    }
}

/// The first position at or after `i` where the characters `ms` occur.
pub open spec fn find_ms_from(s: Seq<char>, i: int) -> Option<int>
    decreases s.len() - i,
{
    if !(0 <= i && i + 2 <= s.len()) {
        None
    } else if s[i] == 'm' && s[i + 1] == 's' {
        Some(i)
    } else {
        find_ms_from(s, i + 1)
    }
}

/// The duration a signature declares: everything before the first `ms`,
/// trimmed; a value containing `|` is a range, optionally wrapped in
/// brackets, whose bounds parse as `u32` (0 on failure); anything else is a
/// fixed value (0 on failure). A non-signature yields a fixed 0.
pub open spec fn pause_duration_of(sig: Seq<char>) -> PauseDuration {
    if !is_pause_sig(sig) {
        PauseDuration::Fixed(0)
    } else {
        let rest = sig.subrange(6, sig.len() as int);
        let d_end = match find_ms_from(rest, 0) {
            Some(i) => i,
            None => rest.len() as int,
        };
        let d = trim(rest.subrange(0, d_end));
        match find_char_from(d, 0, '|') {
            Some(_) => {
                let d1 = if d.len() > 0 && d[0] == '[' {
                    d.drop_first()
                } else {
                    d
                };
                let d2 = if d1.len() > 0 && d1.last() == ']' {
                    d1.drop_last()
                } else {
                    d1
                };
                match find_char_from(d2, 0, '|') {
                    Some(k) => {
                        let k2 = match find_char_from(d2, k + 1, '|') {
                            Some(j) => j,
                            None => d2.len() as int,
                        };
                        PauseDuration::Range(
                            parse_or_zero(d2.subrange(0, k)),
                            parse_or_zero(d2.subrange(k + 1, k2)),
                        )
                    },
                    None => PauseDuration::Range(parse_or_zero(d2), 0),
                }
            },
            None => PauseDuration::Fixed(parse_or_zero(d)),
        }
    }
}

/// The title embedded in a signature: the text after the first `ms` and
/// before a second `ms` (if any), trimmed, and only if it begins with `|`.
pub open spec fn sig_title_of(sig: Seq<char>) -> Option<Seq<char>> {
    if !is_pause_sig(sig) {
        None
    } else {
        let rest = sig.subrange(6, sig.len() as int);
        match find_ms_from(rest, 0) {
            None => None,
            Some(i) => {
                let j = match find_ms_from(rest, i + 2) {
                    Some(j2) => j2,
                    None => rest.len() as int,
                };
                let raw = trim(rest.subrange(i + 2, j));
                if raw.len() > 0 && raw[0] == '|' {
                    Some(trim(raw.drop_first()))
                } else {
                    None
                }
            },
        }
    }
}

/// A signature whose range, if it has one, is non-empty: the random draw is
/// defined exactly on these signatures.
pub open spec fn pause_range_ok(sig: Seq<char>) -> bool {
    match pause_duration_of(sig) {
        PauseDuration::Range(mn, mx) => mn <= mx,
        PauseDuration::Fixed(_) => true,
    }
}

/// The silence buffer length for one duration: the sample count nearest to
/// `rate * ms / 1000`.
pub open spec fn pause_samples(rate: u32, ms: u32) -> nat {
    ((rate as nat) * (ms as nat) + 500) / 1000
}

/// `pause_samples`, capped at what a vector can hold on this platform.
pub open spec fn pause_buffer_len(rate: u32, ms: u32) -> nat {
    if pause_samples(rate, ms) <= usize::MAX as nat {
        pause_samples(rate, ms)
    } else {
        usize::MAX as nat
    }
}

proof fn lemma_find_ms_bounds(s: Seq<char>, from: int, i: int)
    requires
        find_ms_from(s, from) == Some(i),
    ensures
        from <= i && i + 2 <= s.len() && s[i] == 'm' && s[i + 1] == 's',
    decreases s.len() - from,
{
    if 0 <= from && from + 2 <= s.len() {
        if s[from] == 'm' && s[from + 1] == 's' {
        } else {
            lemma_find_ms_bounds(s, from + 1, i);
        }
    }
}

/// Finds the first occurrence of `ms` in `v` at or after `from`.
fn find_ms(v: &Vec<char>, from: usize) -> (r: Option<usize>)
    ensures
        match r {
            Some(i) => find_ms_from(v@, from as int) == Some(i as int),
            None => find_ms_from(v@, from as int) is None,
        },
{
    let mut i: usize = from;
    while i < v.len() && i + 1 < v.len()
        invariant
            from <= i,
            find_ms_from(v@, from as int) == find_ms_from(v@, i as int),
        decreases v@.len() - i,
    {
        if v[i] == 'm' && v[i + 1] == 's' {
            return Some(i);
        }
        i = i + 1;
    }
    None
}

/// Parses a pause signature into a duration in milliseconds and the optional
/// embedded title; a requested random duration is drawn here from the shared
/// random source.
pub fn parse_pause_signature(signature: &String, rand_generator: &mut rand::rngs::StdRng) -> (r: (
    u32,
    Option<String>,
))
    requires
        pause_range_ok(signature@),
    ensures
        (match pause_duration_of(signature@) {
            PauseDuration::Fixed(v) => r.0 == v,
            PauseDuration::Range(mn, mx) => mn <= r.0 <= mx,
        }),
        (match sig_title_of(signature@) {
            Some(t) => r.1 matches Some(rt) && rt@ == t,
            None => r.1 is None,
        }),
{
    let cs = str_chars(signature.as_str());
    if !ref_is_pause(&cs) {
        return (0, None);
    }
    let rest = sub_chars(&cs, 6, cs.len());
    let ms1 = find_ms(&rest, 0);
    let d_end: usize = match ms1 {
        Some(i) => i,
        None => rest.len(),
    };
    proof {
        match ms1 {
            Some(ii) => lemma_find_ms_bounds(rest@, 0, ii as int),
            None => (),
        }
    }
    let d_raw = sub_chars(&rest, 0, d_end);
    let d = trim_chars(&d_raw);

    let title: Option<String> = match ms1 {
        None => None,
        Some(i) => {
            proof {
                lemma_find_ms_bounds(rest@, 0, i as int);
            }
            let j: usize = match find_ms(&rest, i + 2) {
                Some(j2) => j2,
                None => rest.len(),
            };
            proof {
                match find_ms_from(rest@, i + 2 as int) {
                    Some(jj) => lemma_find_ms_bounds(rest@, i + 2 as int, jj),
                    None => (),
                }
            }
            let raw = trim_chars(&sub_chars(&rest, i + 2, j));
            if raw.len() > 0 && raw[0] == '|' {
                proof {
                    assert(raw@.subrange(1, raw@.len() as int) =~= raw@.drop_first());
                }
                let t = trim_chars(&sub_chars(&raw, 1, raw.len()));
                Some(crate::strutil::chars_to_string(&t))
            } else {
                None
            }
        },
    };

    let duration: u32 = match find_char(&d, 0, '|') {
        None => {
            match crate::numfmt::parse_u32_chars(&d) {
                Some(v) => v,
                None => 0,
            }
        },
        Some(_) => {
            let d1 = if d.len() > 0 && d[0] == '[' {
                proof {
                    assert(d@.subrange(1, d@.len() as int) =~= d@.drop_first());
                }
                sub_chars(&d, 1, d.len())
            } else {
                sub_chars(&d, 0, d.len())
            };
            proof {
                assert(d@.subrange(0, d@.len() as int) =~= d@);
            }
            let d2 = if d1.len() > 0 && d1[d1.len() - 1] == ']' {
                proof {
                    assert(d1@.subrange(0, d1@.len() - 1) =~= d1@.drop_last());
                }
                sub_chars(&d1, 0, d1.len() - 1)
            } else {
                sub_chars(&d1, 0, d1.len())
            };
            proof {
                assert(d1@.subrange(0, d1@.len() as int) =~= d1@);
            }
            match find_char(&d2, 0, '|') {
                Some(k) => {
                    proof {
                        lemma_find_char_bounds(d2@, 0, '|', k as int);
                    }
                    let minv = match crate::numfmt::parse_u32_chars(&sub_chars(&d2, 0, k)) {
                        Some(v) => v,
                        None => 0,
                    };
                    let k2: usize = match find_char(&d2, k + 1, '|') {
                        Some(j) => j,
                        None => d2.len(),
                    };
                    proof {
                        match find_char_from(d2@, k + 1 as int, '|') {
                            Some(jj) => lemma_find_char_bounds(d2@, k + 1 as int, '|', jj),
                            None => (),
                        }
                    }
                    let maxv = match crate::numfmt::parse_u32_chars(&sub_chars(&d2, k + 1, k2)) {
                        Some(v) => v,
                        None => 0,
                    };
                    proof {
                        assert(pause_duration_of(signature@) == PauseDuration::Range(minv, maxv));
                    }
                    crate::rng::random_uint_in_range(minv, maxv, rand_generator)
                },
                None => {
                    let minv = match crate::numfmt::parse_u32_chars(&d2) {
                        Some(v) => v,
                        None => 0,
                    };
                    proof {
                        assert(pause_duration_of(signature@) == PauseDuration::Range(minv, 0));
                    }
                    crate::rng::random_uint_in_range(minv, 0, rand_generator)
                },
            }
        },
    };
    (duration, title)
}

/// Synthesizes one pause: parses the signature (drawing a random duration if
/// it declares a range), resolves the title — a title embedded in the
/// signature overrides the caller's — and fills a silence buffer.
pub fn create_pause(
    signature: &String,
    title: Option<String>,
    sample_rate: u32,
    rand_generator: &mut rand::rngs::StdRng,
) -> (r: PauseData)
    requires
        pause_range_ok(signature@),
    ensures
        r.signature@ == signature@,
        r.sample_rate == sample_rate,
        forall|i: int| 0 <= i < r.data@.len() ==> r.data@[i] == 0i32,
        (match sig_title_of(signature@) {
            Some(t) => r.title matches Some(rt) && rt@ == t,
            None => r.title == title,
        }),
        (match pause_duration_of(signature@) {
            PauseDuration::Fixed(d) => r.data@.len() == pause_buffer_len(sample_rate, d),
            PauseDuration::Range(mn, mx) => exists|d: u32|
                mn <= d <= mx && r.data@.len() == pause_buffer_len(sample_rate, d),
        }),
{
    let parsed = parse_pause_signature(signature, rand_generator);
    let duration = parsed.0;
    let title = match parsed.1 {
        Some(t) => Some(t),
        None => title,
    };
    proof {
        let x = sample_rate as int;
        let y = duration as int;
        assert(x * y + 500 < 0x1_0000_0000_0000_0000int) by (nonlinear_arith)
            requires
                0 <= x < 0x1_0000_0000int,
                0 <= y < 0x1_0000_0000int,
        ;
    }
    let n64: u64 = ((sample_rate as u64) * (duration as u64) + 500) / 1000;
    let n: usize = if n64 <= usize::MAX as u64 {
        n64 as usize
    } else {
        usize::MAX
    };
    proof {
        assert(n == pause_buffer_len(sample_rate, duration));
        match pause_duration_of(signature@) {
            PauseDuration::Fixed(dd) => {
                assert(duration == dd);
            },
            PauseDuration::Range(mn, mx) => {
                assert(mn <= duration <= mx && n == pause_buffer_len(sample_rate, duration));
            },
        }
    }
    let data = crate::tracks::silence(n);
    PauseData { signature: signature.clone(), title, sample_rate, data }
}

} // verus!
