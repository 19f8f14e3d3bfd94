//! Loaded track data and the per-render track store.
//!
//! Sample values are fixed-point: the nominal full-scale amplitude 1.0 is
//! `FIXED_ONE`. The loader (outside the library) converts decoded float
//! samples into this representation; everything downstream is verified
//! integer arithmetic.

use vstd::prelude::*;

use crate::strutil::string_eq;

verus! {

/// The fixed-point representation of full-scale amplitude 1.0.
pub const FIXED_ONE: i32 = 0x100_0000;

/// Basic per-track facts used to pick the render's output parameters.
#[derive(Debug, Clone)]
pub struct BasicTrackMeta {
    pub sample_rate: u32,
    pub channels: u32,
    pub bit_depth: u32,
    pub title: String,
}

impl Default for BasicTrackMeta {
    /// All-zero metadata with an empty title.
    fn default() -> (r: BasicTrackMeta)
        ensures
            r.sample_rate == 0 && r.channels == 0 && r.bit_depth == 0 && r.title@ == Seq::<
                char,
            >::empty(),
    {
        BasicTrackMeta { sample_rate: 0, channels: 0, bit_depth: 0, title: String::new() }
    }
}

/// One loaded track: fixed-point samples separated by channel, resampled to
/// the render's target rate.
#[derive(Debug, Clone)]
pub struct TrackData {
    pub meta: BasicTrackMeta,
    pub data: Vec<Vec<i32>>,
    pub nchannels: usize,
}

/// A well-formed track: the channel count matches the buffers, and stays
/// small enough that per-sample channel sums fit in 64 bits.
pub open spec fn track_wf(t: TrackData) -> bool {
    t.nchannels == t.data@.len() && t.data@.len() <= 0x7fff_ffff
}

/// The shortest channel length of a track (0 for no channels).
pub open spec fn min_chan_len(data: Seq<Vec<i32>>) -> nat
    decreases data.len(),
{
    if data.len() == 0 {
        0
    } else if data.len() == 1 {
        data[0]@.len()
    } else {
        let rest = min_chan_len(data.drop_last());
        if data.last()@.len() < rest {
            data.last()@.len()
        } else {
            rest
        }
    }
}

/// The sum of the first `c` channels' samples at index `i`.
pub open spec fn sum_at_upto(data: Seq<Vec<i32>>, i: int, c: int) -> int
    decreases c,
{
    if c <= 0 {
        0
    } else {
        sum_at_upto(data, i, c - 1) + data[c - 1]@[i]
    }
}

/// The sum across all channels of the samples at index `i`.
pub open spec fn sum_at(data: Seq<Vec<i32>>, i: int) -> int {
    sum_at_upto(data, i, data.len() as int)
}

/// Integer division truncating toward zero, as the downmix average uses.
pub open spec fn div_toward_zero(a: int, b: int) -> int {
    if a >= 0 {
        a / b
    } else {
        -((-a) / b)
    }
}

/// The mono-downmix of a track: a single-channel track is returned as is;
/// otherwise each output sample is the per-sample average across all
/// channels, over the shortest channel length.
pub open spec fn mono_spec(t: TrackData) -> Seq<i32> {
    if t.nchannels == 1 {
        t.data[0]@
    } else {
        Seq::new(
            min_chan_len(t.data@),
            |i: int| div_toward_zero(sum_at(t.data@, i), t.data@.len() as int) as i32,
        )
    }
}

proof fn lemma_min_chan_len_le(data: Seq<Vec<i32>>, c: int)
    requires
        0 <= c < data.len(),
    ensures
        min_chan_len(data) <= data[c]@.len(),
    decreases data.len(),
{
    if data.len() > 1 {
        if c == data.len() - 1 {
        } else {
            lemma_min_chan_len_le(data.drop_last(), c);
            assert(data.drop_last()[c] == data[c]);
        }
    }
}

fn find_min_chan_len(data: &Vec<Vec<i32>>) -> (r: usize)
    requires
        data@.len() > 0,
    ensures
        r == min_chan_len(data@),
{
    let mut best: usize = data[0].len();
    let mut c: usize = 1;
    proof {
        assert(data@.subrange(0, 1).len() == 1);
        assert(data@.subrange(0, 1)[0] == data@[0]);
        assert(min_chan_len(data@.subrange(0, 1)) == data@[0]@.len());
    }
    while c < data.len()
        invariant
            1 <= c <= data@.len(),
            best == min_chan_len(data@.subrange(0, c as int)),
        decreases data@.len() - c,
    {
        proof {
            assert(data@.subrange(0, c + 1 as int).drop_last() =~= data@.subrange(0, c as int));
            assert(data@.subrange(0, c + 1 as int).last() == data@[c as int]);
            assert(data@.subrange(0, c + 1 as int).len() == c + 1 >= 2);
        }
        if data[c].len() < best {
            best = data[c].len();
        }
        c = c + 1;
    }
    proof {
        assert(data@.subrange(0, data@.len() as int) =~= data@);
    }
    best
}

impl TrackData {
    /// The per-sample average of all channels: a mono rendition of the
    /// track, truncated to the shortest channel if lengths differ.
    pub fn data_as_mono(&self) -> (r: Vec<i32>)
        requires
            track_wf(*self),
        ensures
            r@ == mono_spec(*self),
    {
        if self.nchannels == 0 {
            let r: Vec<i32> = Vec::new();
            proof {
                assert(r@ =~= mono_spec(*self));
            }
            return r;
        }
        if self.nchannels == 1 {
            let mut out: Vec<i32> = Vec::new();
            let ch = &self.data[0];
            let mut i: usize = 0;
            while i < ch.len()
                invariant
                    i <= ch@.len(),
                    ch@ == self.data[0]@,
                    out@ == ch@.subrange(0, i as int),
                decreases ch@.len() - i,
            {
                out.push(ch[i]);
                proof {
                    assert(out@ =~= ch@.subrange(0, i + 1 as int));
                }
                i = i + 1;
            }
            proof {
                assert(out@ =~= self.data[0]@);
            }
            return out;
        }
        let n = self.data.len();
        let min_length = find_min_chan_len(&self.data);
        let mut mono: Vec<i32> = Vec::new();
        let mut i: usize = 0;
        while i < min_length
            invariant
                track_wf(*self),
                self.nchannels >= 2,
                n == self.data@.len(),
                min_length == min_chan_len(self.data@),
                i <= min_length,
                mono@.len() == i,
                forall|j: int|
                    0 <= j < i ==> mono@[j] == div_toward_zero(
                        sum_at(self.data@, j),
                        self.data@.len() as int,
                    ) as i32,
            decreases min_length - i,
        {
            let mut sum: i64 = 0;
            let mut c: usize = 0;
            while c < n
                invariant
                    track_wf(*self),
                    n == self.data@.len(),
                    min_length == min_chan_len(self.data@),
                    i < min_length,
                    c <= n,
                    sum == sum_at_upto(self.data@, i as int, c as int),
                    -(c as int) * 0x8000_0000 <= sum <= (c as int) * 0x7fff_ffff,
                decreases n - c,
            {
                proof {
                    lemma_min_chan_len_le(self.data@, c as int);
                    assert((c as int) * 0x8000_0000 + 0x8000_0000 == ((c + 1) as int)
                        * 0x8000_0000) by (nonlinear_arith);
                    assert((c as int) * 0x7fff_ffff + 0x7fff_ffff == ((c + 1) as int)
                        * 0x7fff_ffff) by (nonlinear_arith);
                }
                sum = sum + (self.data[c][i] as i64);
                c = c + 1;
            }
            proof {
                assert((n as int) * 0x8000_0000 <= 0x7fff_ffffint * 0x8000_0000)
                    by (nonlinear_arith)
                    requires
                        n <= 0x7fff_ffff,
                ;
                assert((n as int) * 0x7fff_ffff <= 0x7fff_ffffint * 0x7fff_ffff)
                    by (nonlinear_arith)
                    requires
                        n <= 0x7fff_ffff,
                ;
            }
            let q: i64 = if sum >= 0 {
                ((sum as u64) / (n as u64)) as i64
            } else {
                let neg: u64 = (-sum) as u64;
                -((neg / (n as u64)) as i64)
            };
            proof {
                assert(q == div_toward_zero(sum_at(self.data@, i as int), n as int));
                assert(sum <= (n as int) * 0x7fff_ffff);
                assert((sum as int) / (n as int) <= 0x7fff_ffff) by (nonlinear_arith)
                    requires
                        (sum as int) <= (n as int) * 0x7fff_ffff,
                        n >= 2,
                ;
                assert(-sum <= (n as int) * 0x8000_0000);
                assert((-(sum as int)) / (n as int) <= 0x8000_0000) by (nonlinear_arith)
                    requires
                        -(sum as int) <= (n as int) * 0x8000_0000,
                        n >= 2,
                ;
            }
            mono.push(q as i32);
            i = i + 1;
        }
        proof {
            assert(mono@ =~= mono_spec(*self));
        }
        mono
    }
}

/// A buffer of `n` silent samples.
pub fn silence(n: usize) -> (r: Vec<i32>)
    ensures
        r@.len() == n,
        forall|i: int| 0 <= i < r@.len() ==> r@[i] == 0i32,
{
    let mut r: Vec<i32> = Vec::new();
    let mut i: usize = 0;
    while i < n
        invariant
            i <= n,
            r@.len() == i,
            forall|j: int| 0 <= j < r@.len() ==> r@[j] == 0i32,
        decreases n - i,
    {
        r.push(0i32);
        i = i + 1;
    }
    r
}

proof fn lemma_store_lookup_wf_rec(entries: Seq<(String, TrackData)>, p: Seq<char>)
    requires
        forall|i: int| 0 <= i < entries.len() ==> track_wf((#[trigger] entries[i]).1),
        store_lookup(entries, p) is Some,
    ensures
        ({
            &&& store_lookup(entries, p) matches Some(t) && track_wf(t)
        }),
    decreases entries.len(),
{
    if entries.len() > 0 {
        if entries[0].0@ == p {
            assert(track_wf(entries[0].1));
        } else {
            assert(forall|i: int|
                0 <= i < entries.drop_first().len() ==> track_wf(
                    (#[trigger] entries.drop_first()[i]).1,
                ));
            lemma_store_lookup_wf_rec(entries.drop_first(), p);
        }
    }
}

/// Whatever the store hands out is a well-formed track.
pub proof fn lemma_store_lookup_wf(s: TrackStore, p: Seq<char>)
    requires
        store_wf(s),
        store_lookup(s.entries@, p) is Some,
    ensures
        ({
            &&& store_lookup(s.entries@, p) matches Some(t) && track_wf(t)
        }),
{
    lemma_store_lookup_wf_rec(s.entries@, p);
}

/// The track data stored under path `p`: the first entry with that key.
pub open spec fn store_lookup(entries: Seq<(String, TrackData)>, p: Seq<char>) -> Option<TrackData>
    decreases entries.len(),
{
    if entries.len() == 0 {
        None
    } else if entries[0].0@ == p {
        Some(entries[0].1)
    } else {
        store_lookup(entries.drop_first(), p)
    }
}

/// The per-render cache of loaded tracks, keyed by file path.
pub struct TrackStore {
    pub entries: Vec<(String, TrackData)>,
}

/// Every track in the store is well-formed.
pub open spec fn store_wf(s: TrackStore) -> bool {
    forall|i: int| 0 <= i < s.entries@.len() ==> track_wf((#[trigger] s.entries@[i]).1)
}

impl TrackStore {
    /// An empty store.
    pub fn new() -> (r: TrackStore)
        ensures
            r.entries@.len() == 0,
            store_wf(r),
    {
        TrackStore { entries: Vec::new() }
    }

    /// Adds a track under its path. Paths are inserted at most once per
    /// render, so earlier entries win on lookup.
    pub fn insert(&mut self, path: String, data: TrackData)
        requires
            store_wf(*old(self)),
            track_wf(data),
        ensures
            store_wf(*final(self)),
            final(self).entries@ == old(self).entries@.push((path, data)),
    {
        self.entries.push((path, data));
        proof {
            assert forall|i: int| 0 <= i < self.entries@.len() implies track_wf(
                (#[trigger] self.entries@[i]).1,
            ) by {
                if i < old(self).entries@.len() {
                    assert(self.entries@[i] == old(self).entries@[i]);
                }
            }
        }
    }

    /// Looks up the track loaded for `path`.
    pub fn get(&self, path: &String) -> (r: Option<&TrackData>)
        ensures
            match r {
                Some(t) => store_lookup(self.entries@, path@) == Some(*t),
                None => store_lookup(self.entries@, path@) is None,
            },
    {
        let mut i: usize = 0;
        proof {
            assert(self.entries@.subrange(0, self.entries@.len() as int) =~= self.entries@);
        }
        while i < self.entries.len()
            invariant
                i <= self.entries@.len(),
                store_lookup(self.entries@, path@) == store_lookup(
                    self.entries@.subrange(i as int, self.entries@.len() as int),
                    path@,
                ),
            decreases self.entries@.len() - i,
        {
            let ghost rest = self.entries@.subrange(i as int, self.entries@.len() as int);
            proof {
                assert(rest[0] == self.entries@[i as int]);
                assert(rest.drop_first() =~= self.entries@.subrange(
                    i + 1 as int,
                    self.entries@.len() as int,
                ));
            }
            if string_eq(&self.entries[i].0, path) {
                return Some(&self.entries[i].1);
            }
            i = i + 1;
        }
        None
    }
}


/// The mono-downmix of a two-channel pair of opposite samples is zero: the
/// average cancels exactly.
pub proof fn lemma_opposite_downmix(t: TrackData, i: int)
    requires
        track_wf(t),
        t.nchannels == 2,
        0 <= i < min_chan_len(t.data@),
        t.data@[0]@[i] + t.data@[1]@[i] == 0,
    ensures
        mono_spec(t)[i] == 0,
{
    assert(sum_at_upto(t.data@, i, 0) == 0);
    assert(sum_at_upto(t.data@, i, 1) == t.data@[0]@[i]);
    assert(sum_at_upto(t.data@, i, 2) == t.data@[0]@[i] + t.data@[1]@[i]);
    assert(sum_at(t.data@, i) == 0);
    assert(div_toward_zero(0, 2) == 0);
}

} // verus!
