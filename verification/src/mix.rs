//! Mix assembly: walks the resolved content program once, spreading source
//! channels into the output channel layout, accumulating per-channel sample
//! buffers, and emitting one cue point per content entry.
//!
//! The channel-spreading rule for a whole-track entry:
//! - 0 source channels: the entry is skipped and no cue is emitted;
//! - 1 source channel: it is duplicated into every output channel;
//! - 2 source channels: even output channels receive source channel 1 (the
//!   right channel) and odd output channels source channel 0 (the left);
//! - 3 or more: output channel `i` receives source channel `i` modulo the
//!   source channel count.

use vstd::prelude::*;

use crate::cues::{append_cue_track, build_cuesheet_header, cuesheet_parts, num_cuesheets, CueData, CuePoint};
use crate::numfmt::push_dec;
use crate::pauses::{create_pause, pause_range_ok};
use crate::playlist::{is_pause_sig, is_placeholder, playlist_content, ref_is_pause, ref_is_placeholder, ContentItem, Playlist};
use crate::strutil::str_chars;
use crate::tracks::{store_lookup, store_wf, TrackStore};
use vstd::pervasive::VecAdditionalExecFns;

verus! {

/// Why mix assembly failed.
#[derive(Debug, Clone)]
pub enum MixError {
    /// The playlist declares no content program.
    EmptyContent,
    /// A content reference names a track that was not loaded.
    TrackNotFound(String),
}

/// Which source channel the output channel at `out_idx` receives, for a
/// source with `nsrc` channels.
pub open spec fn spread_src(nsrc: int, out_idx: int) -> int {
    if nsrc == 1 {
        0
    } else if nsrc == 2 {
        if out_idx % 2 == 0 {
            1
        } else {
            0
        }
    } else {
        out_idx % nsrc
    }
}

/// The longest accumulated channel length (0 with no channels).
pub open spec fn max_chan_len(data: Seq<Vec<i32>>) -> nat
    decreases data.len(),
{
    if data.len() == 0 {
        0
    } else {
        let rest = max_chan_len(data.drop_last());
        if data.last()@.len() > rest {
            data.last()@.len()
        } else {
            rest
        }
    }
}

fn find_max_chan_len(data: &Vec<Vec<i32>>) -> (r: usize)
    ensures
        r == max_chan_len(data@),
{
    let mut best: usize = 0;
    let mut c: usize = 0;
    proof {
        assert(data@.subrange(0, 0).len() == 0);
    }
    while c < data.len()
        invariant
            c <= data@.len(),
            best == max_chan_len(data@.subrange(0, c as int)),
        decreases data@.len() - c,
    {
        proof {
            assert(data@.subrange(0, c + 1 as int).drop_last() =~= data@.subrange(0, c as int));
            assert(data@.subrange(0, c + 1 as int).last() == data@[c as int]);
        }
        if data[c].len() > best {
            best = data[c].len();
        }
        c = c + 1;
    }
    proof {
        assert(data@.subrange(0, data@.len() as int) =~= data@);
    }
    best
}

/// Appends `data` to the single output channel at index `c`.
fn extend_channel(audio: &mut Vec<Vec<i32>>, c: usize, data: &Vec<i32>)
    requires
        c < old(audio)@.len(),
    ensures
        final(audio)@.len() == old(audio)@.len(),
        final(audio)@[c as int]@ == old(audio)@[c as int]@ + data@,
        forall|k: int|
            0 <= k < final(audio)@.len() && k != c ==> final(audio)@[k] == old(audio)@[k],
{
    let mut tmp: Vec<i32> = Vec::new();
    audio.set_and_swap(c, &mut tmp);
    let mut i: usize = 0;
    let ghost base = tmp@;
    while i < data.len()
        invariant
            i <= data@.len(),
            tmp@ == base + data@.subrange(0, i as int),
        decreases data@.len() - i,
    {
        tmp.push(data[i]);
        proof {
            assert(base + data@.subrange(0, i + 1 as int) =~= (base + data@.subrange(
                0,
                i as int,
            )).push(data@[i as int]));
        }
        i = i + 1;
    }
    proof {
        assert(data@.subrange(0, data@.len() as int) =~= data@);
    }
    audio.set_and_swap(c, &mut tmp);
}

/// Appends the same samples to every output channel, as a pause or a mono
/// source does.
pub fn extend_all_channels(audio: &mut Vec<Vec<i32>>, data: &Vec<i32>)
    ensures
        final(audio)@.len() == old(audio)@.len(),
        forall|c: int|
            0 <= c < final(audio)@.len() ==> (#[trigger] final(audio)@[c])@ == old(audio)@[c]@
                + data@,
{
    let mut c: usize = 0;
    while c < audio.len()
        invariant
            c <= audio@.len(),
            audio@.len() == old(audio)@.len(),
            forall|k: int|
                0 <= k < c ==> (#[trigger] audio@[k])@ == old(audio)@[k]@ + data@,
            forall|k: int| c <= k < audio@.len() ==> audio@[k] == old(audio)@[k],
        decreases audio@.len() - c,
    {
        extend_channel(audio, c, data);
        c = c + 1;
    }
}

/// Spreads a whole source track into the output channels: a mono source is
/// duplicated everywhere; a stereo source alternates right-then-left; more
/// channels rotate in round-robin order.
pub fn spread_track_channels(audio: &mut Vec<Vec<i32>>, src: &Vec<Vec<i32>>)
    requires
        src@.len() >= 1,
    ensures
        final(audio)@.len() == old(audio)@.len(),
        forall|c: int|
            0 <= c < final(audio)@.len() ==> (#[trigger] final(audio)@[c])@ == old(audio)@[c]@
                + src@[spread_src(src@.len() as int, c)]@,
{
    if src.len() == 1 {
        extend_all_channels(audio, &src[0]);
    } else if src.len() == 2 {
        let mut c: usize = 0;
        while c < audio.len()
            invariant
                c <= audio@.len(),
                src@.len() == 2,
                audio@.len() == old(audio)@.len(),
                forall|k: int|
                    0 <= k < c ==> (#[trigger] audio@[k])@ == old(audio)@[k]@ + src@[spread_src(
                        2,
                        k,
                    )]@,
                forall|k: int| c <= k < audio@.len() ==> audio@[k] == old(audio)@[k],
            decreases audio@.len() - c,
        {
            if c % 2 == 0 {
                extend_channel(audio, c, &src[1]);
            } else {
                extend_channel(audio, c, &src[0]);
            }
            c = c + 1;
        }
    } else {
        let mut src_index: usize = 0;
        let mut c: usize = 0;
        while c < audio.len()
            invariant
                c <= audio@.len(),
                src@.len() >= 3,
                src_index < src@.len(),
                src_index == (c as int) % (src@.len() as int),
                audio@.len() == old(audio)@.len(),
                forall|k: int|
                    0 <= k < c ==> (#[trigger] audio@[k])@ == old(audio)@[k]@ + src@[spread_src(
                        src@.len() as int,
                        k,
                    )]@,
                forall|k: int| c <= k < audio@.len() ==> audio@[k] == old(audio)@[k],
            decreases audio@.len() - c,
        {
            extend_channel(audio, c, &src[src_index]);
            if src_index >= src.len() - 1 {
                src_index = 0;
            } else {
                src_index = src_index + 1;
            }
            proof {
                let n = src@.len() as int;
                assert(((c as int) + 1) % n == (if ((c as int) % n) + 1 == n {
                    0int
                } else {
                    ((c as int) % n) + 1
                })) by (nonlinear_arith)
                    requires
                        n >= 3,
                        c >= 0,
                ;
            }
            c = c + 1;
        }
    }
}

/// Every reference of the content program that must resolve to a loaded
/// track is present in the store.
pub open spec fn refs_available(content: Seq<ContentItem>, store: Seq<(String, TrackData)>) -> bool {
    forall|i: int|
        0 <= i < content.len() ==> match #[trigger] content[i] {
            ContentItem::Scalar(Some(v)) => is_pause_sig(v@) || is_placeholder(v@) || store_lookup(
                store,
                v@,
            ) is Some,
            ContentItem::Scalar(None) => true,
            ContentItem::List(items) => forall|k: int|
                0 <= k < items@.len() ==> ((#[trigger] items@[k]) matches Some(v) ==> (is_pause_sig(
                    v@,
                ) || is_placeholder(v@) || store_lookup(store, v@) is Some)),
        }
}

/// Every pause signature in the content program declares a non-empty range,
/// so the random draw is defined.
pub open spec fn pauses_ok(content: Seq<ContentItem>) -> bool {
    forall|i: int|
        0 <= i < content.len() ==> match #[trigger] content[i] {
            ContentItem::Scalar(Some(v)) => pause_range_ok(v@),
            ContentItem::Scalar(None) => true,
            ContentItem::List(items) => forall|k: int|
                0 <= k < items@.len() ==> ((#[trigger] items@[k]) matches Some(v) ==> pause_range_ok(
                    v@,
                )),
        }
}

use crate::tracks::TrackData;

/// An entry that emits a cue: a pause or placeholder, a loaded track with
/// at least one channel, or any list entry. An empty scalar emits nothing,
/// as does a loaded track without channels.
pub open spec fn emits_cue(item: ContentItem, store: Seq<(String, TrackData)>) -> bool {
    match item {
        ContentItem::Scalar(Some(v)) => is_pause_sig(v@) || is_placeholder(v@) || (store_lookup(
            store,
            v@,
        ) matches Some(t) && t.nchannels > 0),
        ContentItem::Scalar(None) => false,
        ContentItem::List(_) => true,
    }
}

/// How many cues a content program emits.
pub open spec fn cue_count(content: Seq<ContentItem>, store: Seq<(String, TrackData)>) -> nat
    decreases content.len(),
{
    if content.len() == 0 {
        0
    } else {
        cue_count(content.drop_last(), store) + (if emits_cue(content.last(), store) {
            1nat
        } else {
            0nat
        })
    }
}

/// The references of one entry that must resolve to loaded tracks all do.
pub open spec fn item_refs_ok(item: ContentItem, store: Seq<(String, TrackData)>) -> bool {
    match item {
        ContentItem::Scalar(Some(v)) => is_pause_sig(v@) || is_placeholder(v@) || store_lookup(
            store,
            v@,
        ) is Some,
        ContentItem::Scalar(None) => true,
        ContentItem::List(items) => forall|k: int|
            0 <= k < items@.len() ==> ((#[trigger] items@[k]) matches Some(v) ==> (is_pause_sig(v@)
                || is_placeholder(v@) || store_lookup(store, v@) is Some)),
    }
}

fn channel_label(slot: usize, text: &str) -> (r: String)
    requires
        slot < usize::MAX,
    ensures
        r@ == "[Ch"@ + crate::numfmt::dec((slot + 1) as nat) + "] "@ + text@,
{
    let mut s = String::new();
    s.append("[Ch");
    push_dec(&mut s, (slot + 1) as u64);
    s.append("] ");
    s.append(text);
    proof {
        assert(s@ =~= "[Ch"@ + crate::numfmt::dec((slot + 1) as nat) + "] "@ + text@);
    }
    s
}

/// The per-channel labels joined with `" + "`.
pub open spec fn joined_labels(ls: Seq<String>) -> Seq<char>
    decreases ls.len(),
{
    if ls.len() == 0 {
        Seq::empty()
    } else if ls.len() == 1 {
        ls[0]@
    } else {
        joined_labels(ls.drop_last()) + " + "@ + ls.last()@
    }
}

fn join_labels(labels: &Vec<String>) -> (r: String)
    ensures
        r@ == joined_labels(labels@),
{
    let mut s = String::new();
    let mut i: usize = 0;
    while i < labels.len()
        invariant
            i <= labels@.len(),
            s@ == joined_labels(labels@.subrange(0, i as int)),
        decreases labels@.len() - i,
    {
        proof {
            assert(labels@.subrange(0, i + 1 as int).drop_last() =~= labels@.subrange(0, i as int));
            assert(labels@.subrange(0, i + 1 as int).last() == labels@[i as int]);
            if i == 0 {
                assert(labels@.subrange(0, 1)[0] == labels@[0]);
            }
        }
        if i > 0 {
            s.append(" + ");
        }
        s.append(labels[i].as_str());
        proof {
            assert(s@ =~= joined_labels(labels@.subrange(0, i + 1 as int)));
        }
        i = i + 1;
    }
    proof {
        assert(labels@.subrange(0, labels@.len() as int) =~= labels@);
    }
    s
}

fn pad_with_zeros(v: &mut Vec<i32>, n: usize)
    ensures
        final(v)@.len() == if old(v)@.len() >= n {
            old(v)@.len()
        } else {
            n as nat
        },
        forall|i: int| 0 <= i < old(v)@.len() ==> final(v)@[i] == old(v)@[i],
        forall|i: int| old(v)@.len() <= i < final(v)@.len() ==> final(v)@[i] == 0i32,
{
    while v.len() < n
        invariant
            v@.len() >= old(v)@.len(),
            forall|i: int| 0 <= i < old(v)@.len() ==> v@[i] == old(v)@[i],
            forall|i: int| old(v)@.len() <= i < v@.len() ==> v@[i] == 0i32,
            v@.len() <= n || v@.len() == old(v)@.len(),
        decreases n - v@.len(),
    {
        v.push(0i32);
    }
}

proof fn lemma_max_chan_len_mono(a: Seq<Vec<i32>>, b: Seq<Vec<i32>>)
    requires
        a.len() == b.len(),
        forall|c: int| 0 <= c < a.len() ==> (#[trigger] b[c])@.len() >= a[c]@.len(),
    ensures
        max_chan_len(b) >= max_chan_len(a),
    decreases a.len(),
{
    if a.len() > 0 {
        assert(forall|c: int|
            0 <= c < a.drop_last().len() ==> (#[trigger] b.drop_last()[c])@.len()
                >= a.drop_last()[c]@.len());
        lemma_max_chan_len_mono(a.drop_last(), b.drop_last());
        assert(b.last()@.len() >= a.last()@.len());
    }
}

proof fn lemma_cuesheet_index_bound(i: int, n: int)
    requires
        0 <= i < n,
    ensures
        i / 99 < (n + 98) / 99,
{
    assert(i / 99 < (n + 98) / 99) by (nonlinear_arith)
        requires
            0 <= i < n,
    ;
}

/// Walks the content program once and fills the per-channel output buffers.
///
/// Every entry except an empty scalar and a whole-track entry with zero
/// source channels appends samples to the output and emits exactly one cue;
/// cue indices are the monotonically increasing counter 1, 2, ... in program
/// order, and the first cue starts one past the longest channel accumulated
/// before assembly. One cuesheet part is produced per 99 content entries
/// (rounded up), each carrying its own header, and after assembly every part
/// is prefixed with the total sample count and the sample rate, and with its
/// part number if there are several parts.
pub fn generate_audio_data(
    audio_data: &mut Vec<Vec<i32>>,
    rng_generator: &mut rand::rngs::StdRng,
    sample_rate: u32,
    tracks_data: &TrackStore,
    playlist: &Playlist,
    playlist_file_stem: &str,
) -> (r: Result<CueData, MixError>)
    requires
        old(audio_data)@.len() >= 1,
        sample_rate >= 1,
        store_wf(*tracks_data),
        pauses_ok(playlist_content(*playlist)),
        crate::playlist::max_list_len(playlist_content(*playlist)) <= old(audio_data)@.len(),
        playlist_content(*playlist).len() < 0x1_0000_0000,
    ensures
        final(audio_data)@.len() == old(audio_data)@.len(),
        r is Ok <==> (playlist.Content is Some && refs_available(
            playlist_content(*playlist),
            tracks_data.entries@,
        )),
        r matches Err(MixError::EmptyContent) ==> playlist.Content is None,
        r matches Err(MixError::TrackNotFound(v)) ==> !is_pause_sig(v@) && !is_placeholder(v@)
            && store_lookup(tracks_data.entries@, v@) is None,
        r matches Ok(cd) ==> ({
            &&& cd.cuesheets@.len() == cuesheet_parts(playlist_content(*playlist).len())
            &&& cd.cues@.len() == cue_count(playlist_content(*playlist), tracks_data.entries@)
            &&& cd.cues@.len() <= playlist_content(*playlist).len()
            &&& forall|i: int| 0 <= i < cd.cues@.len() ==> (#[trigger] cd.cues@[i]).index == i + 1
            &&& (forall|i: int, j: int|
                0 <= i < j < cd.cues@.len() ==> (#[trigger] cd.cues@[i]).start_sample <= (
                #[trigger] cd.cues@[j]).start_sample)
            &&& (cd.cues@.len() > 0 ==> cd.cues@[0].start_sample == crate::cues::sat_u64(
                max_chan_len(old(audio_data)@) + 1,
            ))
        }),
{
    let content: &Vec<ContentItem> = match &playlist.Content {
        Some(c) => c,
        None => {
            return Err(MixError::EmptyContent);
        },
    };
    proof {
        assert(content@ == playlist_content(*playlist));
    }
    let n_entries = content.len();
    let n_cuesheets = num_cuesheets(n_entries);
    let mut cuesheets: Vec<String> = Vec::new();
    let mut si: usize = 0;
    while si < n_cuesheets
        invariant
            si <= n_cuesheets,
            cuesheets@.len() == si,
        decreases n_cuesheets - si,
    {
        cuesheets.push(
            build_cuesheet_header(&playlist.Artist, &playlist.TrackTitle, playlist_file_stem),
        );
        si = si + 1;
    }
    let mut cues: Vec<CuePoint> = Vec::new();
    let mut counter: u32 = 0;
    let mut entry_index: usize = 0;
    while entry_index < n_entries
        invariant
            content@ == playlist_content(*playlist),
            n_entries == content@.len(),
            n_entries < 0x1_0000_0000,
            sample_rate >= 1,
            store_wf(*tracks_data),
            pauses_ok(content@),
            crate::playlist::max_list_len(content@) <= audio_data@.len(),
            audio_data@.len() == old(audio_data)@.len(),
            audio_data@.len() >= 1,
            cuesheets@.len() == n_cuesheets,
            n_cuesheets == cuesheet_parts(n_entries as nat),
            entry_index <= n_entries,
            counter == cues@.len(),
            counter == cue_count(content@.subrange(0, entry_index as int), tracks_data.entries@),
            counter <= entry_index,
            forall|i: int| 0 <= i < cues@.len() ==> (#[trigger] cues@[i]).index == i + 1,
            forall|i: int|
                0 <= i < cues@.len() ==> (#[trigger] cues@[i]).start_sample <= crate::cues::sat_u64(
                    max_chan_len(audio_data@) + 1,
                ),
            forall|i: int, j: int|
                0 <= i < j < cues@.len() ==> (#[trigger] cues@[i]).start_sample <= (
                #[trigger] cues@[j]).start_sample,
            cues@.len() == 0 ==> audio_data@ == old(audio_data)@,
            cues@.len() > 0 ==> cues@[0].start_sample == crate::cues::sat_u64(
                max_chan_len(old(audio_data)@) + 1,
            ),
            forall|j: int|
                0 <= j < entry_index ==> item_refs_ok(#[trigger] content@[j], tracks_data.entries@),
        decreases n_entries - entry_index,
    {
        let cuesheet_index = entry_index / 99;
        proof {
            lemma_cuesheet_index_bound(entry_index as int, n_entries as int);
            assert(content@.subrange(0, entry_index + 1 as int).drop_last() =~= content@.subrange(
                0,
                entry_index as int,
            ));
            assert(content@.subrange(0, entry_index + 1 as int).last()
                == content@[entry_index as int]);
        }
        let last_usize = find_max_chan_len(audio_data);
        let last: u64 = last_usize as u64;
        let start: u64 = if last == 0xffff_ffff_ffff_ffff {
            last
        } else {
            last + 1
        };
        match &content[entry_index] {
            ContentItem::Scalar(Some(value)) => {
                let cs = str_chars(value.as_str());
                if ref_is_pause(&cs) || ref_is_placeholder(&cs) {
                    let looked: Option<String> = match &playlist.Pauses {
                        Some(pauses) => crate::playlist::lookup_pause_title(value, pauses),
                        None => Some(value.clone()),
                    };
                    let pause_data = create_pause(value, looked, sample_rate, rng_generator);
                    let ghost pre_audio = audio_data@;
                    extend_all_channels(audio_data, &pause_data.data);
                    proof {
                        lemma_max_chan_len_mono(pre_audio, audio_data@);
                    }
                    counter = counter + 1;
                    let cue_title: String = match pause_data.title {
                        Some(t) => t,
                        None => pause_data.signature,
                    };
                    let mut sheet = String::new();
                    cuesheets.set_and_swap(cuesheet_index, &mut sheet);
                    append_cue_track(
                        &mut sheet,
                        &mut cues,
                        counter,
                        cue_title.as_str(),
                        start,
                        sample_rate,
                    );
                    cuesheets.set_and_swap(cuesheet_index, &mut sheet);
                } else {
                    match tracks_data.get(value) {
                        Some(track_data) => {
                            proof {
                                crate::tracks::lemma_store_lookup_wf(*tracks_data, value@);
                            }
                            if track_data.nchannels > 0 {
                                let ghost pre_audio = audio_data@;
                                spread_track_channels(audio_data, &track_data.data);
                                proof {
                                    lemma_max_chan_len_mono(pre_audio, audio_data@);
                                }
                                counter = counter + 1;
                                let track_title: Option<String> = match &playlist.Tracks {
                                    Some(ts) => crate::playlist::lookup_track_title(value, ts),
                                    None => Some(track_data.meta.title.clone()),
                                };
                                let cue_title: String = match track_title {
                                    Some(t) => t,
                                    None => track_data.meta.title.clone(),
                                };
                                let mut sheet = String::new();
                                cuesheets.set_and_swap(cuesheet_index, &mut sheet);
                                append_cue_track(
                                    &mut sheet,
                                    &mut cues,
                                    counter,
                                    cue_title.as_str(),
                                    start,
                                    sample_rate,
                                );
                                cuesheets.set_and_swap(cuesheet_index, &mut sheet);
                            }
                        },
                        None => {
                            proof {
                                assert(!item_refs_ok(
                                    content@[entry_index as int],
                                    tracks_data.entries@,
                                ));
                                assert(!refs_available(content@, tracks_data.entries@));
                            }
                            return Err(MixError::TrackNotFound(value.clone()));
                        },
                    }
                }
            },
            ContentItem::Scalar(None) => {},
            ContentItem::List(channels) => {
                let mut entry_max: usize = 0;
                let mut this_entry: Vec<Vec<i32>> = Vec::new();
                let mut entry_titles: Vec<String> = Vec::new();
                let mut k: usize = 0;
                while k < channels.len()
                    invariant
                        sample_rate >= 1,
                        store_wf(*tracks_data),
                        audio_data@.len() == old(audio_data)@.len(),
                        audio_data@.len() >= 1,
                        content@ == playlist_content(*playlist),
                        k <= channels@.len(),
                        this_entry@.len() == k,
                        0 <= entry_index < content@.len(),
                        content@[entry_index as int] matches ContentItem::List(its) && its@
                            == channels@,
                        pauses_ok(content@),
                        forall|j: int|
                            0 <= j < this_entry@.len() ==> (#[trigger] this_entry@[j])@.len()
                                <= entry_max,
                        forall|m: int|
                            0 <= m < k ==> ((#[trigger] channels@[m]) matches Some(v) ==> (
                            is_pause_sig(v@) || is_placeholder(v@) || store_lookup(
                                tracks_data.entries@,
                                v@,
                            ) is Some)),
                    decreases channels@.len() - k,
                {
                    match &channels[k] {
                        Some(v) => {
                            let cs = str_chars(v.as_str());
                            if ref_is_pause(&cs) || ref_is_placeholder(&cs) {
                                let looked: Option<String> = match &playlist.Pauses {
                                    Some(pauses) => crate::playlist::lookup_pause_title(v, pauses),
                                    None => Some(v.clone()),
                                };
                                proof {
                                    assert(pause_range_ok(v@));
                                }
                                let pause_data = create_pause(
                                    v,
                                    looked,
                                    sample_rate,
                                    rng_generator,
                                );
                                if pause_data.data.len() > entry_max {
                                    entry_max = pause_data.data.len();
                                }
                                let label_text: String = match pause_data.title {
                                    Some(t) => t,
                                    None => pause_data.signature.clone(),
                                };
                                entry_titles.push(channel_label(k, label_text.as_str()));
                                this_entry.push(pause_data.data);
                            } else {
                                match tracks_data.get(v) {
                                    Some(track_data) => {
                                        proof {
                                            crate::tracks::lemma_store_lookup_wf(
                                                *tracks_data,
                                                v@,
                                            );
                                        }
                                        let mono = track_data.data_as_mono();
                                        if mono.len() > entry_max {
                                            entry_max = mono.len();
                                        }
                                        let track_title: Option<String> = match &playlist.Tracks {
                                            Some(ts) => crate::playlist::lookup_track_title(v, ts),
                                            None => Some(track_data.meta.title.clone()),
                                        };
                                        let label_text: String = match track_title {
                                            Some(t) => t,
                                            None => track_data.meta.title.clone(),
                                        };
                                        entry_titles.push(channel_label(k, label_text.as_str()));
                                        this_entry.push(mono);
                                    },
                                    None => {
                                        proof {
                                            assert((channels@[k as int] matches Some(x)
                                                && !is_pause_sig(x@) && !is_placeholder(x@)
                                                && store_lookup(
                                                tracks_data.entries@,
                                                x@,
                                            ) is None));
                                            assert(!item_refs_ok(
                                                content@[entry_index as int],
                                                tracks_data.entries@,
                                            ));
                                            assert(!refs_available(
                                                content@,
                                                tracks_data.entries@,
                                            ));
                                        }
                                        return Err(MixError::TrackNotFound(v.clone()));
                                    },
                                }
                            }
                        },
                        None => {
                            this_entry.push(crate::tracks::silence(entry_max));
                        },
                    }
                    k = k + 1;
                }
                proof {
                    crate::playlist::lemma_list_len_le_max(content@, entry_index as int);
                }
                let mut k2: usize = 0;
                while k2 < this_entry.len()
                    invariant
                        this_entry@.len() <= audio_data@.len(),
                        k2 <= this_entry@.len(),
                        forall|j: int|
                            0 <= j < this_entry@.len() ==> (#[trigger] this_entry@[j])@.len()
                                <= entry_max,
                    decreases this_entry@.len() - k2,
                {
                    let mut ch: Vec<i32> = Vec::new();
                    this_entry.set_and_swap(k2, &mut ch);
                    pad_with_zeros(&mut ch, entry_max);
                    this_entry.set_and_swap(k2, &mut ch);
                    proof {
                        assert forall|j: int|
                            0 <= j < this_entry@.len() implies (#[trigger] this_entry@[j])@.len()
                            <= entry_max by {}
                    }
                    k2 = k2 + 1;
                }
                let mut k3: usize = 0;
                while k3 < this_entry.len()
                    invariant
                        this_entry@.len() <= audio_data@.len(),
                        audio_data@.len() == old(audio_data)@.len(),
                        k3 <= this_entry@.len(),
                        forall|i: int|
                            0 <= i < cues@.len() ==> (#[trigger] cues@[i]).start_sample
                                <= crate::cues::sat_u64(max_chan_len(audio_data@) + 1),
                        last as nat <= max_chan_len(audio_data@),
                        start == crate::cues::sat_u64(last as nat + 1),
                    decreases this_entry@.len() - k3,
                {
                    let ghost pre_audio = audio_data@;
                    extend_channel(audio_data, k3, &this_entry[k3]);
                    proof {
                        lemma_max_chan_len_mono(pre_audio, audio_data@);
                    }
                    k3 = k3 + 1;
                }
                let joined = join_labels(&entry_titles);
                counter = counter + 1;
                let mut sheet = String::new();
                cuesheets.set_and_swap(cuesheet_index, &mut sheet);
                append_cue_track(
                    &mut sheet,
                    &mut cues,
                    counter,
                    joined.as_str(),
                    start,
                    sample_rate,
                );
                cuesheets.set_and_swap(cuesheet_index, &mut sheet);
            },
        }
        entry_index = entry_index + 1;
    }
    let total_len = audio_data[0].len();
    let mut si2: usize = 0;
    while si2 < cuesheets.len()
        invariant
            cuesheets@.len() == n_cuesheets,
            si2 <= cuesheets@.len(),
        decreases cuesheets@.len() - si2,
    {
        let mut prefix = String::new();
        if n_cuesheets > 1 {
            prefix.append("REM CUESHEETPART ");
            push_dec(&mut prefix, (si2 + 1) as u64);
            prefix.append("\n");
        }
        prefix.append("REM TOTALSAMPLES ");
        push_dec(&mut prefix, total_len as u64);
        prefix.append("\n");
        prefix.append("REM RATE ");
        push_dec(&mut prefix, sample_rate as u64);
        prefix.append("\n");
        let mut sheet = String::new();
        cuesheets.set_and_swap(si2, &mut sheet);
        let combined = prefix.concat(sheet.as_str());
        cuesheets.set(si2, combined);
        si2 = si2 + 1;
    }
    proof {
        assert(refs_available(content@, tracks_data.entries@));
        assert(content@.subrange(0, n_entries as int) =~= content@);
    }
    Ok(CueData { cuesheets, cues })
}


/// A mono source spread into any number of output channels leaves every
/// output channel bit-identical, provided the channels were identical
/// before the entry.
pub proof fn lemma_mono_spread_identical(
    before: Seq<Vec<i32>>,
    after: Seq<Vec<i32>>,
    src: Seq<Vec<i32>>,
)
    requires
        src.len() == 1,
        after.len() == before.len(),
        forall|c: int|
            0 <= c < after.len() ==> (#[trigger] after[c])@ == before[c]@ + src[spread_src(
                src.len() as int,
                c,
            )]@,
        forall|c1: int, c2: int|
            0 <= c1 < before.len() && 0 <= c2 < before.len() ==> (#[trigger] before[c1])@
                == (#[trigger] before[c2])@,
    ensures
        forall|c1: int, c2: int|
            0 <= c1 < after.len() && 0 <= c2 < after.len() ==> (#[trigger] after[c1])@
                == (#[trigger] after[c2])@,
{
}

/// A stereo source alternates: every even output channel receives source
/// channel 1 (the right channel), every odd one source channel 0.
pub proof fn lemma_stereo_spread(c: int)
    requires
        c >= 0,
    ensures
        spread_src(2, c) == if c % 2 == 0 {
            1int
        } else {
            0int
        },
{
}

/// A source of three or more channels is spread round-robin: output channel
/// `c` receives source channel `c` modulo the source channel count.
pub proof fn lemma_round_robin_spread(nsrc: int, c: int)
    requires
        nsrc >= 3,
        c >= 0,
    ensures
        spread_src(nsrc, c) == c % nsrc,
{
}

/// The largest sample rate any loaded track declares.
pub open spec fn fold_max_rate(metas: Seq<crate::tracks::BasicTrackMeta>) -> u32
    decreases metas.len(),
{
    if metas.len() == 0 {
        0u32
    } else {
        let rest = fold_max_rate(metas.drop_last());
        if metas.last().sample_rate > rest {
            metas.last().sample_rate
        } else {
            rest
        }
    }
}

/// The largest bit depth any loaded track declares.
pub open spec fn fold_max_depth(metas: Seq<crate::tracks::BasicTrackMeta>) -> u32
    decreases metas.len(),
{
    if metas.len() == 0 {
        0u32
    } else {
        let rest = fold_max_depth(metas.drop_last());
        if metas.last().bit_depth > rest {
            metas.last().bit_depth
        } else {
            rest
        }
    }
}

/// The largest channel count any loaded track declares.
pub open spec fn fold_max_channels(metas: Seq<crate::tracks::BasicTrackMeta>) -> u32
    decreases metas.len(),
{
    if metas.len() == 0 {
        0u32
    } else {
        let rest = fold_max_channels(metas.drop_last());
        if metas.last().channels > rest {
            metas.last().channels
        } else {
            rest
        }
    }
}

/// Picks the render's output parameters from the loaded tracks' metadata and
/// the playlist: the largest declared bit depth (16 if none), the largest
/// declared channel count also covering the widest content list entry (mono
/// if none), and the largest declared sample rate (44100 Hz if none).
pub fn determine_output_params(
    tracks_metadata: &Vec<crate::tracks::BasicTrackMeta>,
    playlist: &Playlist,
) -> (r: (u32, u32, u32))
    requires
        crate::playlist::max_list_len(playlist_content(*playlist)) <= 0xffff_ffff,
    ensures
        r.0 == (if fold_max_depth(tracks_metadata@) == 0 {
            16u32
        } else {
            fold_max_depth(tracks_metadata@)
        }),
        r.2 == (if fold_max_rate(tracks_metadata@) == 0 {
            44100u32
        } else {
            fold_max_rate(tracks_metadata@)
        }),
        ({
            let from_meta = fold_max_channels(tracks_metadata@);
            let with_lists = if playlist.Content is Some && crate::playlist::max_list_len(
                playlist_content(*playlist),
            ) > from_meta {
                crate::playlist::max_list_len(playlist_content(*playlist)) as u32
            } else {
                from_meta
            };
            r.1 == (if with_lists == 0 {
                1u32
            } else {
                with_lists
            })
        }),
{
    let mut max_bit_depth: u32 = 0;
    let mut max_channels: u32 = 0;
    let mut max_sample_rate: u32 = 0;
    let mut i: usize = 0;
    while i < tracks_metadata.len()
        invariant
            i <= tracks_metadata@.len(),
            max_bit_depth == fold_max_depth(tracks_metadata@.subrange(0, i as int)),
            max_channels == fold_max_channels(tracks_metadata@.subrange(0, i as int)),
            max_sample_rate == fold_max_rate(tracks_metadata@.subrange(0, i as int)),
        decreases tracks_metadata@.len() - i,
    {
        proof {
            assert(tracks_metadata@.subrange(0, i + 1 as int).drop_last() =~= tracks_metadata@
                .subrange(0, i as int));
            assert(tracks_metadata@.subrange(0, i + 1 as int).last() == tracks_metadata@[i as int]);
        }
        let m = &tracks_metadata[i];
        if m.bit_depth > max_bit_depth {
            max_bit_depth = m.bit_depth;
        }
        if m.channels > max_channels {
            max_channels = m.channels;
        }
        if m.sample_rate > max_sample_rate {
            max_sample_rate = m.sample_rate;
        }
        i = i + 1;
    }
    proof {
        assert(tracks_metadata@.subrange(0, tracks_metadata@.len() as int) =~= tracks_metadata@);
    }
    if max_sample_rate == 0 {
        max_sample_rate = 44100;
    }
    if max_bit_depth == 0 {
        max_bit_depth = 16;
    }
    match &playlist.Content {
        Some(content) => {
            let widest = crate::playlist::find_max_elements_in_playlist(content);
            if widest as u32 > max_channels {
                max_channels = widest as u32;
            }
        },
        None => {},
    }
    if max_channels == 0 {
        max_channels = 1;
    }
    (max_bit_depth, max_channels, max_sample_rate)
}

} // verus!
