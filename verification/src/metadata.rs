//! Structured metadata extracted from one audio file.
//!
//! Container probing, tag reading and artwork loading happen outside the
//! library; the logic that classifies tags, extracts chapter markers from
//! embedded cuesheet text or cue points, and selects the best thumbnail
//! stands here and is verified. Timestamps are carried in milliseconds.

use vstd::prelude::*;

use crate::numfmt::{dec, parse_u32_spec};
use crate::playlist::paths_contain;
use crate::strutil::{
    find_char, find_char_from, has_prefix, lemma_find_char_bounds, str_chars, string_eq, sub_chars,
    trim, trim_chars,
};
use crate::tagkeys::{tagkey_name, tagkey_name_of, TagKey};
use vstd::pervasive::VecAdditionalExecFns;

verus! {

/// One chapter marker: a start position, a title, and an optional note.
#[derive(Debug, Clone)]
pub struct Chapter {
    /// Start position in milliseconds.
    pub timestamp_ms: u64,
    pub title: String,
    pub description: Option<String>,
}

/// One tag read from a container: its classified standard key, if any, its
/// raw name, and its value rendered as text.
#[derive(Debug, Clone)]
pub struct MetaTag {
    pub std_key: Option<TagKey>,
    pub key: String,
    pub value: String,
}

/// One embedded picture: its media type, raw bytes, and pixel dimensions
/// where the container declares them.
#[derive(Debug, Clone)]
pub struct VisualInfo {
    pub media_type: String,
    pub data: Vec<u8>,
    pub dimensions: Option<(u32, u32)>,
}

/// The structured metadata of one audio file.
#[derive(Debug, Clone)]
pub struct AudioMetadata {
    /// Name of the audio file (its title tag, or the file stem).
    pub name: String,
    /// Primary artist.
    pub artist: Option<String>,
    /// Additional contributing artists, without duplicates.
    pub contributors: Option<Vec<String>>,
    /// Thumbnail as an inline data URI.
    pub thumbnail: Option<String>,
    /// Path to the audio file.
    pub path: String,
    /// Duration in milliseconds (0 if unknown).
    pub duration_ms: u64,
    /// Size of the file in bytes.
    pub size: u64,
    pub sample_rate: u32,
    pub channels: u32,
    pub bit_depth: u32,
    /// Chapter markers, where any were found.
    pub chapters: Option<Vec<Chapter>>,
    /// Unmatched tags: the open name-to-value bucket for everything the
    /// classifier has no structured field for.
    pub extras: Vec<(String, String)>,
}

/// The value stored under `k` in an extras bucket (first match).
pub open spec fn extras_lookup(extras: Seq<(String, String)>, k: Seq<char>) -> Option<Seq<char>>
    decreases extras.len(),
{
    if extras.len() == 0 {
        None
    } else if extras[0].0@ == k {
        Some(extras[0].1@)
    } else {
        extras_lookup(extras.drop_first(), k)
    }
}

/// Extras keys are unique.
pub open spec fn extras_keys_unique(extras: Seq<(String, String)>) -> bool {
    forall|i: int, j: int|
        0 <= i < j < extras.len() ==> (#[trigger] extras[i]).0@ != (#[trigger] extras[j]).0@
}

/// Contributor entries are pairwise distinct.
pub open spec fn contributors_distinct(c: Option<Vec<String>>) -> bool {
    match c {
        Some(cs) => forall|i: int, j: int|
            0 <= i < j < cs@.len() ==> (#[trigger] cs@[i])@ != (#[trigger] cs@[j])@,
        None => true,
    }
}

/// A metadata value the tag classifier can work on: distinct extras keys and
/// distinct contributors.
pub open spec fn metadata_wf(m: AudioMetadata) -> bool {
    extras_keys_unique(m.extras@) && contributors_distinct(m.contributors)
}

impl Default for AudioMetadata {
    /// Empty metadata: empty strings, zero numbers, nothing optional.
    fn default() -> (r: AudioMetadata)
        ensures
            r.name@ == Seq::<char>::empty() && r.artist is None && r.contributors is None
                && r.thumbnail is None && r.path@ == Seq::<char>::empty() && r.duration_ms == 0
                && r.size == 0 && r.sample_rate == 0 && r.channels == 0 && r.bit_depth == 0
                && r.chapters is None && r.extras@.len() == 0,
            metadata_wf(r),
    {
        AudioMetadata {
            name: String::new(),
            artist: None,
            contributors: None,
            thumbnail: None,
            path: String::new(),
            duration_ms: 0,
            size: 0,
            sample_rate: 0,
            channels: 0,
            bit_depth: 0,
            chapters: None,
            extras: Vec::new(),
        }
    }
}

/// Sets `k` to `v` in the extras bucket, replacing an existing entry.
fn extras_insert(extras: &mut Vec<(String, String)>, k: String, v: String)
    requires
        extras_keys_unique(old(extras)@),
    ensures
        extras_keys_unique(final(extras)@),
        extras_lookup(final(extras)@, k@) == Some(v@),
        forall|q: Seq<char>|
            q != k@ ==> #[trigger] extras_lookup(final(extras)@, q) == extras_lookup(
                old(extras)@,
                q,
            ),
{
    let ghost orig = extras@;
    let mut i: usize = 0;
    while i < extras.len()
        invariant
            extras@ == orig,
            orig == old(extras)@,
            extras_keys_unique(orig),
            i <= extras@.len(),
            forall|j: int| 0 <= j < i ==> (#[trigger] extras@[j]).0@ != k@,
        decreases extras@.len() - i,
    {
        if string_eq(&extras[i].0, &k) {
            let ghost idx = i as int;
            extras.set(i, (k, v));
            proof {
                assert(extras@[idx].0@ == k@ && extras@[idx].1@ == v@);
                lemma_extras_update(orig, extras@, idx);
                assert forall|q: Seq<char>| q != k@ implies #[trigger] extras_lookup(extras@, q)
                    == extras_lookup(orig, q) by {
                    assert(q != extras@[idx].0@);
                }
            }
            return ;
        }
        i = i + 1;
    }
    extras.push((k, v));
    proof {
        lemma_extras_push(orig, extras@);
    }
}

proof fn lemma_extras_lookup_prefix(
    a: Seq<(String, String)>,
    b: Seq<(String, String)>,
    q: Seq<char>,
    n: int,
)
    requires
        0 <= n <= a.len(),
        n <= b.len(),
        a.len() == b.len(),
        forall|j: int| 0 <= j < a.len() ==> #[trigger] a[j] == b[j],
    ensures
        extras_lookup(a, q) == extras_lookup(b, q),
    decreases a.len(),
{
    if a.len() > 0 {
        assert(a[0] == b[0]);
        if a[0].0@ == q {
        } else {
            assert(forall|j: int|
                0 <= j < a.drop_first().len() ==> #[trigger] a.drop_first()[j]
                    == b.drop_first()[j]);
            lemma_extras_lookup_prefix(a.drop_first(), b.drop_first(), q, 0);
        }
    }
}

proof fn lemma_extras_lookup_at(e: Seq<(String, String)>, idx: int)
    requires
        extras_keys_unique(e),
        0 <= idx < e.len(),
    ensures
        extras_lookup(e, e[idx].0@) == Some(e[idx].1@),
    decreases e.len(),
{
    if idx == 0 {
    } else {
        assert(e[0].0@ != e[idx].0@);
        assert(extras_keys_unique(e.drop_first())) by {
            assert(forall|i: int, j: int|
                0 <= i < j < e.drop_first().len() ==> (#[trigger] e.drop_first()[i]).0@ != (
                #[trigger] e.drop_first()[j]).0@);
        }
        lemma_extras_lookup_at(e.drop_first(), idx - 1);
        assert(e.drop_first()[idx - 1] == e[idx]);
    }
}

proof fn lemma_extras_update(pre: Seq<(String, String)>, post: Seq<(String, String)>, idx: int)
    requires
        extras_keys_unique(pre),
        0 <= idx < pre.len(),
        post.len() == pre.len(),
        forall|j: int| 0 <= j < pre.len() && j != idx ==> #[trigger] post[j] == pre[j],
        post[idx].0@ == pre[idx].0@,
    ensures
        extras_keys_unique(post),
        extras_lookup(post, post[idx].0@) == Some(post[idx].1@),
        forall|q: Seq<char>|
            q != post[idx].0@ ==> #[trigger] extras_lookup(post, q) == extras_lookup(pre, q),
    decreases pre.len(),
{
    assert(extras_keys_unique(post)) by {
        assert(forall|i: int| 0 <= i < post.len() ==> (#[trigger] post[i]).0@ == pre[i].0@);
    }
    lemma_extras_lookup_at(post, idx);
    assert forall|q: Seq<char>| q != post[idx].0@ implies #[trigger] extras_lookup(post, q)
        == extras_lookup(pre, q) by {
        lemma_lookup_pointwise(pre, post, q, idx);
    }
}

proof fn lemma_lookup_pointwise(
    pre: Seq<(String, String)>,
    post: Seq<(String, String)>,
    q: Seq<char>,
    idx: int,
)
    requires
        0 <= idx < pre.len(),
        post.len() == pre.len(),
        forall|j: int| 0 <= j < pre.len() && j != idx ==> #[trigger] post[j] == pre[j],
        post[idx].0@ == pre[idx].0@,
        q != post[idx].0@,
    ensures
        extras_lookup(post, q) == extras_lookup(pre, q),
    decreases pre.len(),
{
    if pre.len() > 0 {
        if idx == 0 {
            assert(forall|j: int|
                0 <= j < pre.drop_first().len() ==> #[trigger] post.drop_first()[j]
                    == pre.drop_first()[j]);
            lemma_extras_lookup_prefix(pre.drop_first(), post.drop_first(), q, 0);
        } else {
            assert(post[0] == pre[0]);
            if pre[0].0@ == q {
            } else {
                assert(forall|j: int|
                    0 <= j < pre.drop_first().len() && j != idx - 1
                        ==> #[trigger] post.drop_first()[j] == pre.drop_first()[j]);
                assert(post.drop_first()[idx - 1].0@ == pre.drop_first()[idx - 1].0@);
                lemma_lookup_pointwise(pre.drop_first(), post.drop_first(), q, idx - 1);
            }
        }
    }
}

proof fn lemma_extras_push(pre: Seq<(String, String)>, post: Seq<(String, String)>)
    requires
        extras_keys_unique(pre),
        post.len() == pre.len() + 1,
        forall|j: int| 0 <= j < pre.len() ==> #[trigger] post[j] == pre[j],
        forall|j: int| 0 <= j < pre.len() ==> (#[trigger] pre[j]).0@ != post[pre.len() as int].0@,
    ensures
        extras_keys_unique(post),
        extras_lookup(post, post[pre.len() as int].0@) == Some(post[pre.len() as int].1@),
        forall|q: Seq<char>|
            q != post[pre.len() as int].0@ ==> #[trigger] extras_lookup(post, q) == extras_lookup(
                pre,
                q,
            ),
    decreases pre.len(),
{
    assert(extras_keys_unique(post));
    lemma_extras_lookup_at(post, pre.len() as int);
    assert forall|q: Seq<char>| q != post[pre.len() as int].0@ implies #[trigger] extras_lookup(
        post,
        q,
    ) == extras_lookup(pre, q) by {
        lemma_lookup_push_other(pre, post, q);
    }
}

proof fn lemma_lookup_push_other(
    pre: Seq<(String, String)>,
    post: Seq<(String, String)>,
    q: Seq<char>,
)
    requires
        post.len() == pre.len() + 1,
        forall|j: int| 0 <= j < pre.len() ==> #[trigger] post[j] == pre[j],
        q != post[pre.len() as int].0@,
    ensures
        extras_lookup(post, q) == extras_lookup(pre, q),
    decreases pre.len(),
{
    if pre.len() == 0 {
    } else {
        assert(post[0] == pre[0]);
        if pre[0].0@ == q {
        } else {
            assert(forall|j: int|
                0 <= j < pre.drop_first().len() ==> #[trigger] post.drop_first()[j]
                    == pre.drop_first()[j]);
            assert(post.drop_first()[pre.drop_first().len() as int] == post[pre.len() as int]);
            lemma_lookup_push_other(pre.drop_first(), post.drop_first(), q);
        }
    }
}


/// The value of the last title tag, if any.
pub open spec fn last_title(tags: Seq<MetaTag>) -> Option<Seq<char>>
    decreases tags.len(),
{
    if tags.len() == 0 {
        None
    } else if tags.last().std_key == Some(TagKey::TrackTitle) {
        Some(tags.last().value@)
    } else {
        last_title(tags.drop_last())
    }
}

/// The value of the last artist tag, if any.
pub open spec fn last_artist(tags: Seq<MetaTag>) -> Option<Seq<char>>
    decreases tags.len(),
{
    if tags.len() == 0 {
        None
    } else if tags.last().std_key == Some(TagKey::Artist) {
        Some(tags.last().value@)
    } else {
        last_artist(tags.drop_last())
    }
}

/// An album-artist tag.
pub open spec fn is_album_artist(t: MetaTag) -> bool {
    t.std_key == Some(TagKey::AlbumArtist)
}

/// The extras key a tag lands under: the standard key's name, or the raw
/// key for an unclassified tag; nothing for the structured fields.
pub open spec fn extra_key(t: MetaTag) -> Option<Seq<char>> {
    match t.std_key {
        Some(TagKey::TrackTitle) => None,
        Some(TagKey::Artist) => None,
        Some(TagKey::AlbumArtist) => None,
        Some(k) => Some(tagkey_name_of(k)),
        None => Some(t.key@),
    }
}

/// The value of the last tag landing under extras key `q`, if any.
pub open spec fn last_extra(tags: Seq<MetaTag>, q: Seq<char>) -> Option<Seq<char>>
    decreases tags.len(),
{
    if tags.len() == 0 {
        None
    } else if extra_key(tags.last()) == Some(q) {
        Some(tags.last().value@)
    } else {
        last_extra(tags.drop_last(), q)
    }
}

/// Some album-artist tag carries value `c`.
pub open spec fn album_artist_in(tags: Seq<MetaTag>, c: Seq<char>) -> bool {
    exists|i: int|
        0 <= i < tags.len() && is_album_artist(#[trigger] tags[i]) && tags[i].value@ == c
}

/// The contributor strings, or the empty sequence.
pub open spec fn contribs(c: Option<Vec<String>>) -> Seq<String> {
    match c {
        Some(cs) => cs@,
        None => Seq::empty(),
    }
}

impl AudioMetadata {
    /// Classifies a batch of tags into the structured fields: the last title
    /// tag becomes the name, the last artist tag the artist, album-artist
    /// tags accumulate into the contributors without duplicates, and every
    /// other tag lands in `extras`, keyed by its standard key's name or its
    /// raw key, later tags replacing earlier ones.
    pub fn try_add_known_tags(&mut self, tags: &Vec<MetaTag>)
        requires
            metadata_wf(*old(self)),
        ensures
            metadata_wf(*final(self)),
            final(self).path == old(self).path,
            final(self).thumbnail == old(self).thumbnail,
            final(self).chapters == old(self).chapters,
            final(self).duration_ms == old(self).duration_ms,
            final(self).size == old(self).size,
            final(self).sample_rate == old(self).sample_rate,
            final(self).channels == old(self).channels,
            final(self).bit_depth == old(self).bit_depth,
            (match last_title(tags@) {
                Some(v) => final(self).name@ == v,
                None => final(self).name == old(self).name,
            }),
            (match last_artist(tags@) {
                Some(v) => final(self).artist matches Some(a) && a@ == v,
                None => final(self).artist == old(self).artist,
            }),
            (forall|i: int| 0 <= i < tags@.len() ==> !is_album_artist(#[trigger] tags@[i]))
                ==> final(self).contributors == old(self).contributors,
            (exists|i: int| 0 <= i < tags@.len() && is_album_artist(#[trigger] tags@[i]))
                ==> final(self).contributors is Some,
            forall|c: Seq<char>|
                #[trigger] paths_contain(contribs(final(self).contributors), c) <==> (paths_contain(
                    contribs(old(self).contributors),
                    c,
                ) || album_artist_in(tags@, c)),
            forall|q: Seq<char>|
                #[trigger] extras_lookup(final(self).extras@, q) == (match last_extra(tags@, q) {
                    Some(v) => Some(v),
                    None => extras_lookup(old(self).extras@, q),
                }),
    {
        let mut i: usize = 0;
        while i < tags.len()
            invariant
                i <= tags@.len(),
                metadata_wf(*self),
                self.path == old(self).path,
                self.thumbnail == old(self).thumbnail,
                self.chapters == old(self).chapters,
                self.duration_ms == old(self).duration_ms,
                self.size == old(self).size,
                self.sample_rate == old(self).sample_rate,
                self.channels == old(self).channels,
                self.bit_depth == old(self).bit_depth,
                (match last_title(tags@.subrange(0, i as int)) {
                    Some(v) => self.name@ == v,
                    None => self.name == old(self).name,
                }),
                (match last_artist(tags@.subrange(0, i as int)) {
                    Some(v) => self.artist matches Some(a) && a@ == v,
                    None => self.artist == old(self).artist,
                }),
                (forall|j: int| 0 <= j < i ==> !is_album_artist(#[trigger] tags@[j]))
                    ==> self.contributors == old(self).contributors,
                (exists|j: int| 0 <= j < i && is_album_artist(#[trigger] tags@[j]))
                    ==> self.contributors is Some,
                forall|c: Seq<char>|
                    #[trigger] paths_contain(contribs(self.contributors), c) <==> (paths_contain(
                        contribs(old(self).contributors),
                        c,
                    ) || album_artist_in(tags@.subrange(0, i as int), c)),
                forall|q: Seq<char>|
                    #[trigger] extras_lookup(self.extras@, q) == (match last_extra(
                        tags@.subrange(0, i as int),
                        q,
                    ) {
                        Some(v) => Some(v),
                        None => extras_lookup(old(self).extras@, q),
                    }),
            decreases tags@.len() - i,
        {
            let ghost pre = tags@.subrange(0, i as int);
            let ghost post = tags@.subrange(0, i + 1 as int);
            proof {
                assert(post.drop_last() =~= pre);
                assert(post.last() == tags@[i as int]);
            }
            let tag = &tags[i];
            match &tag.std_key {
                Some(TagKey::TrackTitle) => {
                    self.name = tag.value.clone();
                },
                Some(TagKey::Artist) => {
                    self.artist = Some(tag.value.clone());
                },
                Some(TagKey::AlbumArtist) => {
                    let ghost oldc = contribs(self.contributors);
                    let mut cur: Vec<String> = match self.contributors.take() {
                        Some(cs) => cs,
                        None => Vec::new(),
                    };
                    if !crate::playlist::paths_contain_exec(&cur, &tag.value) {
                        cur.push(tag.value.clone());
                    }
                    proof {
                        assert forall|c: Seq<char>| #[trigger]
                            paths_contain(cur@, c) <==> (paths_contain(oldc, c) || c
                                == tags@[i as int].value@) by {
                            if paths_contain(cur@, c) {
                                let w = choose|x: int|
                                    0 <= x < cur@.len() && #[trigger] cur@[x]@ == c;
                                if w < oldc.len() {
                                    assert(paths_contain(oldc, c));
                                }
                            }
                            if paths_contain(oldc, c) {
                                let w = choose|x: int|
                                    0 <= x < oldc.len() && #[trigger] oldc[x]@ == c;
                                assert(cur@[w]@ == c);
                            }
                            if c == tags@[i as int].value@ && cur@.len() > oldc.len() {
                                assert(cur@[oldc.len() as int]@ == c);
                            }
                        }
                    }
                    self.contributors = Some(cur);
                    proof {
                        assert forall|c: Seq<char>| #[trigger]
                            paths_contain(contribs(self.contributors), c) <==> (paths_contain(
                                contribs(old(self).contributors),
                                c,
                            ) || album_artist_in(post, c)) by {
                            if album_artist_in(post, c) {
                                let w = choose|x: int|
                                    0 <= x < post.len() && is_album_artist(#[trigger] post[x])
                                        && post[x].value@ == c;
                                if w < i {
                                    assert(album_artist_in(pre, c));
                                }
                            }
                            if album_artist_in(pre, c) {
                                let w = choose|x: int|
                                    0 <= x < pre.len() && is_album_artist(#[trigger] pre[x])
                                        && pre[x].value@ == c;
                                assert(post[w] == pre[w]);
                                assert(album_artist_in(post, c));
                            }
                            if c == tags@[i as int].value@ {
                                assert(is_album_artist(post[i as int]));
                                assert(album_artist_in(post, c));
                            }
                        }
                    }
                },
                Some(other) => {
                    let key = tagkey_name(other).to_owned();
                    extras_insert(&mut self.extras, key, tag.value.clone());
                    proof {
                        assert(extra_key(tags@[i as int]) == Some(tagkey_name_of(*other)));
                    }
                },
                None => {
                    let key = tag.key.clone();
                    extras_insert(&mut self.extras, key, tag.value.clone());
                    proof {
                        assert(extra_key(tags@[i as int]) == Some(tags@[i as int].key@));
                    }
                },
            }
            proof {
                if !is_album_artist(tags@[i as int]) {
                    assert forall|c: Seq<char>| #[trigger]
                        paths_contain(contribs(self.contributors), c) <==> (paths_contain(
                            contribs(old(self).contributors),
                            c,
                        ) || album_artist_in(post, c)) by {
                        if album_artist_in(post, c) {
                            let w = choose|x: int|
                                0 <= x < post.len() && is_album_artist(#[trigger] post[x])
                                    && post[x].value@ == c;
                            assert(w < i);
                            assert(post[w] == pre[w]);
                            assert(album_artist_in(pre, c));
                        }
                        if album_artist_in(pre, c) {
                            let w = choose|x: int|
                                0 <= x < pre.len() && is_album_artist(#[trigger] pre[x])
                                    && pre[x].value@ == c;
                            assert(post[w] == pre[w]);
                            assert(album_artist_in(post, c));
                        }
                    }
                }
            }
            i = i + 1;
        }
        proof {
            assert(tags@.subrange(0, tags@.len() as int) =~= tags@);
        }
    }
}


/// The lines of `s` from position `i` on, split at newline characters.
pub open spec fn split_lines_from(s: Seq<char>, i: int) -> Seq<Seq<char>>
    decreases s.len() + 1 - i,
{
    if !(0 <= i <= s.len()) {
        Seq::empty()
    } else {
        match find_char_from(s, i, '\n') {
            Some(p) => if i <= p < s.len() {
                seq![s.subrange(i, p)] + split_lines_from(s, p + 1)
            } else {
                seq![s.subrange(i, s.len() as int)]
            },
            None => seq![s.subrange(i, s.len() as int)],
        }
    }
}

/// The lines of a text, split at newline characters.
pub open spec fn split_lines(s: Seq<char>) -> Seq<Seq<char>> {
    split_lines_from(s, 0)
}

/// Drops leading lines until one begins (after trimming) with `FILE`.
pub open spec fn lines_from_file_directive(lines: Seq<Seq<char>>) -> Seq<Seq<char>>
    decreases lines.len(),
{
    if lines.len() == 0 {
        lines
    } else if trim(lines[0]).len() >= 4 && trim(lines[0]).subrange(0, 4) == "FILE"@ {
        lines
    } else {
        lines_from_file_directive(lines.drop_first())
    }
}

/// The title a `TITLE` line declares: the text after the keyword, trimmed;
/// quoted text keeps what stands between the first quote pair.
pub open spec fn title_of_line(line: Seq<char>) -> Option<Seq<char>> {
    let l = trim(line);
    if l.len() >= 5 && l.subrange(0, 5) == "TITLE"@ {
        let rest = trim(l.subrange(5, l.len() as int));
        if rest.len() > 0 && rest[0] == '"' {
            match find_char_from(rest, 1, '"') {
                Some(q) => Some(rest.subrange(1, q)),
                None => Some(rest.subrange(1, rest.len() as int)),
            }
        } else {
            Some(rest)
        }
    } else {
        None
    }
}

/// The `mm:ss:ff` position in milliseconds, at 75 frames per second,
/// truncated to whole milliseconds.
pub open spec fn msf_to_ms(mm: u32, ss: u32, ff: u32) -> nat {
    ((mm as nat) * 60 + (ss as nat)) * 1000 + (ff as nat) * 1000 / 75
}

/// The index number and position an `INDEX <n> <mm:ss:ff>` line declares.
pub open spec fn index_of_line(line: Seq<char>) -> Option<(u32, nat)> {
    let l = trim(line);
    if l.len() >= 5 && l.subrange(0, 5) == "INDEX"@ {
        let rest = trim(l.subrange(5, l.len() as int));
        match find_char_from(rest, 0, ' ') {
            Some(sp) => match parse_u32_spec(rest.subrange(0, sp)) {
                Some(n) => {
                    let ts = trim(rest.subrange(sp + 1, rest.len() as int));
                    match find_char_from(ts, 0, ':') {
                        Some(p1) => match find_char_from(ts, p1 + 1, ':') {
                            Some(p2) => match (
                                parse_u32_spec(ts.subrange(0, p1)),
                                parse_u32_spec(ts.subrange(p1 + 1, p2)),
                                parse_u32_spec(ts.subrange(p2 + 1, ts.len() as int)),
                            ) {
                                (Some(mm), Some(ss), Some(ff)) => Some((n, msf_to_ms(mm, ss, ff))),
                                _ => None,
                            },
                            None => None,
                        },
                        None => None,
                    }
                },
                None => None,
            },
            None => None,
        }
    } else {
        None
    }
}

/// The chapters a cuesheet body declares: every `INDEX 1` position paired
/// with the most recent `TITLE`; malformed lines are skipped.
pub open spec fn sheet_chapters(lines: Seq<Seq<char>>, title: Seq<char>) -> Seq<(nat, Seq<char>)>
    decreases lines.len(),
{
    if lines.len() == 0 {
        Seq::empty()
    } else {
        match title_of_line(lines[0]) {
            Some(t) => sheet_chapters(lines.drop_first(), t),
            None => match index_of_line(lines[0]) {
                Some((n, ms)) => if n == 1 {
                    seq![(ms, title)] + sheet_chapters(lines.drop_first(), title)
                } else {
                    sheet_chapters(lines.drop_first(), title)
                },
                None => sheet_chapters(lines.drop_first(), title),
            },
        }
    }
}

/// The chapters of a whole cuesheet text: header lines before the `FILE`
/// directive are skipped, then titles and `INDEX 1` positions pair up.
pub open spec fn cuesheet_chapters_spec(s: Seq<char>) -> Seq<(nat, Seq<char>)> {
    sheet_chapters(lines_from_file_directive(split_lines(s)), Seq::empty())
}

/// The (position, title) pairs of a chapter list.
pub open spec fn chapter_pairs(chs: Seq<Chapter>) -> Seq<(nat, Seq<char>)> {
    chs.map_values(|c: Chapter| (c.timestamp_ms as nat, c.title@))
}

fn file_directive_start(lines: &Vec<Vec<char>>) -> (r: usize)
    ensures
        r <= lines@.len(),
        lines_from_file_directive(lines.deep_view()) == lines.deep_view().subrange(
            r as int,
            lines.deep_view().len() as int,
        ),
{
    proof {
        reveal_strlit("FILE");
    }
    let ghost dv = lines.deep_view();
    let mut start: usize = 0;
    proof {
        assert(dv.subrange(0, dv.len() as int) =~= dv);
    }
    while start < lines.len()
        invariant
            start <= lines@.len(),
            dv == lines.deep_view(),
            dv.len() == lines@.len(),
            lines_from_file_directive(dv) == lines_from_file_directive(
                dv.subrange(start as int, dv.len() as int),
            ),
        decreases lines@.len() - start,
    {
        let ghost rest = dv.subrange(start as int, dv.len() as int);
        proof {
            assert(dv[start as int] =~= lines@[start as int]@);
            assert(rest[0] == dv[start as int]);
            assert(rest.drop_first() =~= dv.subrange(start + 1 as int, dv.len() as int));
        }
        let t = trim_chars(&lines[start]);
        if has_prefix(&t, "FILE") {
            proof {
                reveal_strlit("FILE");
                assert(t@ == trim(rest[0]));
                assert(lines_from_file_directive(rest) == rest);
            }
            return start;
        }
        proof {
            reveal_strlit("FILE");
            assert(t@ == trim(rest[0]));
            assert(lines_from_file_directive(rest) == lines_from_file_directive(
                rest.drop_first(),
            ));
        }
        start = start + 1;
    }
    proof {
        assert(dv.subrange(start as int, dv.len() as int).len() == 0);
    }
    start
}

fn split_lines_exec(v: &Vec<char>) -> (r: Vec<Vec<char>>)
    ensures
        r.deep_view() == split_lines(v@),
{
    let mut r: Vec<Vec<char>> = Vec::new();
    let mut i: usize = 0;
    let n = v.len();
    loop
        invariant
            0 <= i <= v@.len(),
            n == v@.len(),
            split_lines(v@) =~= r.deep_view() + split_lines_from(v@, i as int),
        decreases v@.len() - i,
    {
        match find_char(v, i, '\n') {
            Some(p) => {
                proof {
                    lemma_find_char_bounds(v@, i as int, '\n', p as int);
                }
                let ghost before = r.deep_view();
                r.push(sub_chars(v, i, p));
                proof {
                    assert(r.deep_view() =~~= before.push(v@.subrange(i as int, p as int)));
                    assert(split_lines_from(v@, i as int) == seq![v@.subrange(i as int, p as int)]
                        + split_lines_from(v@, p + 1));
                    assert(before + split_lines_from(v@, i as int) =~= r.deep_view()
                        + split_lines_from(v@, p + 1));
                }
                i = p + 1;
            },
            None => {
                let ghost before = r.deep_view();
                r.push(sub_chars(v, i, v.len()));
                proof {
                    assert(r.deep_view() =~~= before.push(
                        v@.subrange(i as int, v@.len() as int),
                    ));
                    assert(split_lines_from(v@, i as int) == seq![
                        v@.subrange(i as int, v@.len() as int),
                    ]);
                    assert(before + split_lines_from(v@, i as int) =~= r.deep_view());
                    assert(r.deep_view() =~~= split_lines(v@));
                }
                return r;
            },
        }
    }
}

fn line_title(line: &Vec<char>) -> (r: Option<Vec<char>>)
    ensures
        match r {
            Some(t) => title_of_line(line@) == Some(t@),
            None => title_of_line(line@) is None,
        },
{
    proof {
        reveal_strlit("TITLE");
    }
    let l = trim_chars(line);
    if !has_prefix(&l, "TITLE") {
        return None;
    }
    let rest = trim_chars(&sub_chars(&l, 5, l.len()));
    if rest.len() > 0 && rest[0] == '"' {
        match find_char(&rest, 1, '"') {
            Some(q) => {
                proof {
                    lemma_find_char_bounds(rest@, 1, '"', q as int);
                }
                Some(sub_chars(&rest, 1, q))
            },
            None => Some(sub_chars(&rest, 1, rest.len())),
        }
    } else {
        Some(rest)
    }
}

fn line_index(line: &Vec<char>) -> (r: Option<(u32, u64)>)
    ensures
        match r {
            Some(p) => index_of_line(line@) == Some((p.0, p.1 as nat)),
            None => index_of_line(line@) is None,
        },
{
    proof {
        reveal_strlit("INDEX");
    }
    let l = trim_chars(line);
    if !has_prefix(&l, "INDEX") {
        return None;
    }
    let rest = trim_chars(&sub_chars(&l, 5, l.len()));
    let sp = match find_char(&rest, 0, ' ') {
        Some(sp) => sp,
        None => {
            return None;
        },
    };
    proof {
        lemma_find_char_bounds(rest@, 0, ' ', sp as int);
    }
    let n = match crate::numfmt::parse_u32_chars(&sub_chars(&rest, 0, sp)) {
        Some(n) => n,
        None => {
            return None;
        },
    };
    let ts = trim_chars(&sub_chars(&rest, sp + 1, rest.len()));
    let p1 = match find_char(&ts, 0, ':') {
        Some(p1) => p1,
        None => {
            return None;
        },
    };
    proof {
        lemma_find_char_bounds(ts@, 0, ':', p1 as int);
    }
    let p2 = match find_char(&ts, p1 + 1, ':') {
        Some(p2) => p2,
        None => {
            return None;
        },
    };
    proof {
        lemma_find_char_bounds(ts@, p1 + 1 as int, ':', p2 as int);
    }
    let mm = match crate::numfmt::parse_u32_chars(&sub_chars(&ts, 0, p1)) {
        Some(v) => v,
        None => {
            return None;
        },
    };
    let ss = match crate::numfmt::parse_u32_chars(&sub_chars(&ts, p1 + 1, p2)) {
        Some(v) => v,
        None => {
            return None;
        },
    };
    let ff = match crate::numfmt::parse_u32_chars(&sub_chars(&ts, p2 + 1, ts.len())) {
        Some(v) => v,
        None => {
            return None;
        },
    };
    let ms: u64 = ((mm as u64) * 60 + (ss as u64)) * 1000 + (ff as u64) * 1000 / 75;
    proof {
        assert(ms == msf_to_ms(mm, ss, ff));
    }
    Some((n, ms))
}

/// Parses an embedded cuesheet text into chapters: lines before the `FILE`
/// directive are skipped; every `INDEX 1` position becomes a chapter titled
/// by the preceding `TITLE` line. Nothing where no chapter is found.
pub fn cuesheet2chapters(cuesheet: &str) -> (r: Option<Vec<Chapter>>)
    ensures
        ({
            let spec = cuesheet_chapters_spec(cuesheet@);
            match r {
                Some(chs) => spec.len() > 0 && chs@.len() == spec.len() && (forall|i: int|
                    0 <= i < chs@.len() ==> (#[trigger] chs@[i]).timestamp_ms == spec[i].0 && chs@[
                        i
                    ].title@ == spec[i].1 && chs@[i].description is None),
                None => spec.len() == 0,
            }
        }),
{
    proof {
        reveal_strlit("FILE");
    }
    let cs = str_chars(cuesheet);
    let lines = split_lines_exec(&cs);
    let ghost dv = lines.deep_view();
    let nlines = lines.len();
    proof {
        assert(dv.len() == lines@.len());
    }
    let start = file_directive_start(&lines);
    let ghost body = lines_from_file_directive(dv);
    let mut chapters: Vec<Chapter> = Vec::new();
    let mut title: Vec<char> = Vec::new();
    let mut k: usize = start;
    while k < nlines
        invariant
            start <= k <= nlines,
            nlines == lines@.len(),
            dv == lines.deep_view(),
            dv.len() == nlines,
            body == lines_from_file_directive(dv),
            body =~= dv.subrange(start as int, dv.len() as int),
            sheet_chapters(body, Seq::empty()) =~= chapter_pairs(chapters@) + sheet_chapters(
                dv.subrange(k as int, dv.len() as int),
                title@,
            ),
            forall|i: int|
                0 <= i < chapters@.len() ==> (#[trigger] chapters@[i]).description is None,
        decreases nlines - k,
    {
        let ghost rest = dv.subrange(k as int, dv.len() as int);
        proof {
            assert(rest[0] == dv[k as int]);
            assert(dv[k as int] == lines@[k as int]@);
            assert(rest.drop_first() =~= dv.subrange(k + 1 as int, dv.len() as int));
        }
        match line_title(&lines[k]) {
            Some(t) => {
                title = t;
            },
            None => {
                match line_index(&lines[k]) {
                    Some((n, ms)) => {
                        if n == 1 {
                            let ghost before = chapters@;
                            let ghost old_title = title@;
                            chapters.push(
                                Chapter {
                                    timestamp_ms: ms,
                                    title: crate::strutil::chars_to_string(&title),
                                    description: None,
                                },
                            );
                            proof {
                                assert(chapter_pairs(chapters@) =~= chapter_pairs(before) + seq![
                                    (ms as nat, old_title),
                                ]);
                                assert(chapter_pairs(before) + (seq![(ms as nat, old_title)]
                                    + sheet_chapters(rest.drop_first(), old_title))
                                    =~= chapter_pairs(chapters@) + sheet_chapters(
                                    rest.drop_first(),
                                    old_title,
                                ));
                            }
                        }
                    },
                    None => {},
                }
            },
        }
        k = k + 1;
    }
    proof {
        assert(dv.subrange(nlines as int, dv.len() as int).len() == 0);
        assert(sheet_chapters(dv.subrange(nlines as int, dv.len() as int), title@)
            =~= Seq::<(nat, Seq<char>)>::empty());
        assert(cuesheet_chapters_spec(cuesheet@) =~= chapter_pairs(chapters@));
    }
    if chapters.len() == 0 {
        None
    } else {
        proof {
            assert(cuesheet_chapters_spec(cuesheet@).len() == chapters@.len());
        }
        Some(chapters)
    }
}


/// A tag whose key names embedded cuesheet text (case-insensitively).
pub open spec fn is_cuesheet_tag(t: MetaTag) -> bool {
    crate::strutil::has_substring(
        crate::strutil::ascii_lower_seq(t.key@),
        "cuesheet"@,
    )
}

/// The chapters all cuesheet-bearing tags of a batch declare, in tag order.
pub open spec fn tags_chapters(tags: Seq<MetaTag>) -> Seq<(nat, Seq<char>)>
    decreases tags.len(),
{
    if tags.len() == 0 {
        Seq::empty()
    } else {
        tags_chapters(tags.drop_last()) + (if is_cuesheet_tag(tags.last()) {
            cuesheet_chapters_spec(tags.last().value@)
        } else {
            Seq::empty()
        })
    }
}

/// Extracts chapters from every tag whose key mentions `cuesheet`; nothing
/// where no chapter is found.
pub fn chapters_from_tags(tags: &Vec<MetaTag>) -> (r: Option<Vec<Chapter>>)
    ensures
        ({
            let spec = tags_chapters(tags@);
            match r {
                Some(chs) => spec.len() > 0 && chs@.len() == spec.len() && (forall|i: int|
                    0 <= i < chs@.len() ==> (#[trigger] chs@[i]).timestamp_ms == spec[i].0 && chs@[
                        i
                    ].title@ == spec[i].1),
                None => spec.len() == 0,
            }
        }),
{
    proof {
        reveal_strlit("cuesheet");
    }
    let mut chapters: Vec<Chapter> = Vec::new();
    let needle = str_chars("cuesheet");
    let mut i: usize = 0;
    while i < tags.len()
        invariant
            i <= tags@.len(),
            needle@ == "cuesheet"@,
            chapter_pairs(chapters@) =~= tags_chapters(tags@.subrange(0, i as int)),
        decreases tags@.len() - i,
    {
        let ghost pre = tags@.subrange(0, i as int);
        let ghost post = tags@.subrange(0, i + 1 as int);
        proof {
            assert(post.drop_last() =~= pre);
            assert(post.last() == tags@[i as int]);
        }
        let key_lower = crate::strutil::to_ascii_lower(&str_chars(tags[i].key.as_str()));
        if crate::strutil::contains_substring(&key_lower, &needle) {
            match cuesheet2chapters(tags[i].value.as_str()) {
                Some(mut found) => {
                    let ghost before = chapters@;
                    let ghost found_view = found@;
                    chapters.append(&mut found);
                    proof {
                        assert(chapter_pairs(chapters@) =~= chapter_pairs(before) + chapter_pairs(
                            found_view,
                        ));
                        assert(chapter_pairs(found_view) =~= cuesheet_chapters_spec(
                            tags@[i as int].value@,
                        ));
                    }
                },
                None => {},
            }
        }
        i = i + 1;
    }
    proof {
        assert(tags@.subrange(0, tags@.len() as int) =~= tags@);
    }
    if chapters.len() == 0 {
        None
    } else {
        proof {
            assert(tags_chapters(tags@).len() == chapters@.len());
        }
        Some(chapters)
    }
}

/// Whether a codec identifier lies in the PCM/Wave range.
pub fn is_pcm_wave(codec: u32) -> (r: bool)
    ensures
        r == (0x100 <= codec <= 0x125),
{
    0x100 <= codec && codec <= 0x125
}

impl AudioMetadata {
    /// Backfills title, artist, contributors and thumbnail from a directly
    /// read tag block, for containers whose primary tags the probe missed:
    /// each field is taken only where still unset; the title also replaces a
    /// name that still equals the file stem.
    pub fn fill_missing_basic_tags(
        &mut self,
        file_stem: &str,
        title: Option<String>,
        artist: Option<String>,
        album_artist: Option<String>,
        thumbnail: Option<String>,
    )
        ensures
            ({
                let t = match title {
                    Some(t) => t@,
                    None => file_stem@,
                };
                &&& ((old(self).name@.len() == 0 || old(self).name@ == file_stem@)
                    ==> final(self).name@ == t)
                &&& (!(old(self).name@.len() == 0 || old(self).name@ == file_stem@)
                    ==> final(self).name == old(self).name)
            }),
            final(self).artist == (if old(self).artist is None {
                artist
            } else {
                old(self).artist
            }),
            (old(self).contributors is Some
                ==> final(self).contributors == old(self).contributors),
            (old(self).contributors is None ==> (match album_artist {
                Some(a) => final(self).contributors matches Some(cs) && cs@.len() == 1 && cs@[0]@
                    == a@,
                None => final(self).contributors is None,
            })),
            final(self).thumbnail == (if old(self).thumbnail is None {
                thumbnail
            } else {
                old(self).thumbnail
            }),
            final(self).name@ == old(self).name@ || (title matches Some(t) && final(self).name@
                == t@) || final(self).name@ == file_stem@,
            final(self).path == old(self).path,
            final(self).extras == old(self).extras,
            final(self).chapters == old(self).chapters,
            final(self).duration_ms == old(self).duration_ms,
            final(self).size == old(self).size,
            final(self).sample_rate == old(self).sample_rate,
            final(self).channels == old(self).channels,
            final(self).bit_depth == old(self).bit_depth,
    {
        let name_chars = str_chars(self.name.as_str());
        let stem_chars = str_chars(file_stem);
        let name_is_stem = crate::strutil::chars_eq_str(&name_chars, file_stem);
        if self.name.as_str().is_empty() || name_is_stem {
            match &title {
                Some(t) => {
                    self.name = t.clone();
                },
                None => {
                    self.name = file_stem.to_owned();
                },
            }
        }
        if self.artist.is_none() {
            self.artist = artist;
        }
        if self.contributors.is_none() {
            match album_artist {
                Some(a) => {
                    let mut cs: Vec<String> = Vec::new();
                    cs.push(a);
                    self.contributors = Some(cs);
                },
                None => {},
            }
        }
        if self.thumbnail.is_none() {
            self.thumbnail = thumbnail;
        }
    }
}

/// The decimal rendering of `n`, zero-padded on the left to `w` characters.
pub open spec fn padded_dec(n: nat, w: nat) -> Seq<char> {
    if dec(n).len() >= w {
        dec(n)
    } else {
        Seq::new((w - dec(n).len()) as nat, |i: int| '0') + dec(n)
    }
}

/// The default title of cue point `i + 1` of `count`: `Chapter #` and the
/// one-based number, zero-padded to the width of the count.
pub open spec fn default_cue_title(i: nat, count: nat) -> Seq<char> {
    "Chapter #"@ + padded_dec(i + 1, dec(count).len())
}

fn push_padded_dec(s: &mut String, n: u64, w: usize)
    ensures
        final(s)@ == old(s)@ + padded_dec(n as nat, w as nat),
{
    let digits = {
        let mut d = String::new();
        crate::numfmt::push_dec(&mut d, n);
        d
    };
    let dlen = digits.as_str().unicode_len();
    let mut pad: usize = 0;
    while pad + dlen < w
        invariant
            dlen == dec(n as nat).len(),
            dlen + pad <= w || pad == 0,
            s@ == old(s)@ + Seq::new(pad as nat, |i: int| '0'),
        decreases w - pad,
    {
        s.push('0');
        proof {
            assert(s@ =~= old(s)@ + Seq::new((pad + 1) as nat, |i: int| '0'));
        }
        pad = pad + 1;
    }
    s.append(digits.as_str());
    proof {
        if dec(n as nat).len() >= w {
            assert(Seq::new(0nat, |i: int| '0') =~= Seq::<char>::empty());
            assert(final(s)@ =~= old(s)@ + padded_dec(n as nat, w as nat));
        } else {
            assert(final(s)@ =~= old(s)@ + padded_dec(n as nat, w as nat));
        }
    }
}

/// One cue point read from a wave file: its frame position, its optional
/// label and its optional note.
pub struct WaveCuePoint {
    pub frame: u64,
    pub label: Option<String>,
    pub note: Option<String>,
}

/// Converts a wave file's cue points into chapters: positions become
/// milliseconds, labelled points keep their label, unlabelled ones get a
/// numbered default title, and notes become descriptions.
pub fn chapters_from_cue_points(points: &Vec<WaveCuePoint>, sample_rate: u32) -> (r: Vec<Chapter>)
    ensures
        r@.len() == points@.len(),
        forall|i: int|
            0 <= i < r@.len() ==> {
                let p = #[trigger] points@[i];
                &&& r@[i].timestamp_ms == (if sample_rate == 0 {
                    0nat
                } else {
                    crate::cues::sat_u64((p.frame as nat) * 1000 / (sample_rate as nat))
                })
                &&& (match p.label {
                    Some(l) => r@[i].title == l,
                    None => r@[i].title@ == default_cue_title(i as nat, points@.len() as nat),
                })
                &&& r@[i].description == p.note
            },
{
    let mut r: Vec<Chapter> = Vec::new();
    let count = points.len();
    let width = {
        let mut d = String::new();
        crate::numfmt::push_dec(&mut d, count as u64);
        d.as_str().unicode_len()
    };
    let mut i: usize = 0;
    while i < count
        invariant
            count == points@.len(),
            width == dec(count as nat).len(),
            i <= count,
            r@.len() == i,
            forall|j: int|
                0 <= j < i ==> {
                    let p = #[trigger] points@[j];
                    &&& r@[j].timestamp_ms == (if sample_rate == 0 {
                        0nat
                    } else {
                        crate::cues::sat_u64((p.frame as nat) * 1000 / (sample_rate as nat))
                    })
                    &&& (match p.label {
                        Some(l) => r@[j].title == l,
                        None => r@[j].title@ == default_cue_title(j as nat, points@.len() as nat),
                    })
                    &&& r@[j].description == p.note
                },
        decreases count - i,
    {
        let p = &points[i];
        let ms: u64 = if sample_rate == 0 {
            0
        } else {
            let w: u128 = ((p.frame as u128) * 1000) / (sample_rate as u128);
            if w > 0xffff_ffff_ffff_ffff {
                0xffff_ffff_ffff_ffff
            } else {
                w as u64
            }
        };
        proof {
            if sample_rate != 0 {
                assert((p.frame as nat) * 1000 / (sample_rate as nat) <= (p.frame as nat) * 1000)
                    by (nonlinear_arith)
                    requires
                        sample_rate >= 1,
                ;
                assert((p.frame as nat) * 1000 < 0x1_0000_0000_0000_0000_0000nat)
                    by (nonlinear_arith)
                    requires
                        p.frame <= 0xffff_ffff_ffff_ffffu64,
                ;
            }
        }
        let title: String = match &p.label {
            Some(l) => l.clone(),
            None => {
                let mut t = String::new();
                t.append("Chapter #");
                push_padded_dec(&mut t, (i + 1) as u64, width);
                proof {
                    assert(t@ =~= default_cue_title(i as nat, points@.len() as nat));
                }
                t
            },
        };
        let note = match &p.note {
            Some(n) => Some(n.clone()),
            None => None,
        };
        r.push(Chapter { timestamp_ms: ms, title, description: note });
        i = i + 1;
    }
    r
}


/// A picture with equal width and height.
pub open spec fn vis_square(v: VisualInfo) -> bool {
    v.dimensions matches Some(d) && d.0 == d.1
}

/// A picture's pixel area (0 where dimensions are unknown).
pub open spec fn vis_area(v: VisualInfo) -> nat {
    match v.dimensions {
        Some(d) => (d.0 as nat) * (d.1 as nat),
        None => 0,
    }
}

fn vis_area_exec(v: &VisualInfo) -> (r: u64)
    ensures
        r == vis_area(*v),
{
    match &v.dimensions {
        Some(d) => {
            let w = d.0;
            let h = d.1;
            proof {
                let wi = w as int;
                let hi = h as int;
                assert(wi * hi < 0x1_0000_0000_0000_0000int) by (nonlinear_arith)
                    requires
                        0 <= wi < 0x1_0000_0000int,
                        0 <= hi < 0x1_0000_0000int,
                ;
            }
            (w as u64) * (h as u64)
        },
        None => 0,
    }
}

/// `a` ranks strictly above `b`: square beats non-square, then larger area
/// wins.
pub open spec fn vis_better(a: VisualInfo, b: VisualInfo) -> bool {
    (vis_square(a) && !vis_square(b)) || (vis_square(a) == vis_square(b) && vis_area(a) > vis_area(
        b,
    ))
}

/// The first index holding the best-ranked picture: square aspect ratio
/// first, then highest area; earlier pictures win ties.
pub open spec fn best_visual_idx(vs: Seq<VisualInfo>) -> int
    decreases vs.len(),
{
    if vs.len() <= 1 {
        0
    } else {
        let b = best_visual_idx(vs.drop_last());
        if 0 <= b < vs.len() - 1 && vis_better(vs.last(), vs[b]) {
            vs.len() - 1
        } else {
            b
        }
    }
}

proof fn lemma_best_visual_in_range(vs: Seq<VisualInfo>)
    requires
        vs.len() > 0,
    ensures
        0 <= best_visual_idx(vs) < vs.len(),
    decreases vs.len(),
{
    if vs.len() > 1 {
        lemma_best_visual_in_range(vs.drop_last());
    }
}

/// Selects a thumbnail from a file's embedded pictures: the square picture
/// of highest area, or, with no square picture, the one of highest area; a
/// winner with no bytes falls back to the default, as does an empty picture
/// list. The winner is rendered as an inline data URI.
pub fn extract_thumbnail(visuals: &Vec<VisualInfo>, default: Option<String>) -> (r: Option<String>)
    ensures
        visuals@.len() == 0 ==> r == default,
        visuals@.len() > 0 ==> ({
            let best = visuals@[best_visual_idx(visuals@)];
            if best.data@.len() > 0 {
                r matches Some(u) && u@ == crate::vis::data_uri_of(best.media_type@, best.data@)
            } else {
                r == default
            }
        }),
{
    if visuals.len() == 0 {
        return default;
    }
    let mut best: usize = 0;
    let mut i: usize = 1;
    proof {
        assert(visuals@.subrange(0, 1).len() == 1);
        assert(best_visual_idx(visuals@.subrange(0, 1)) == 0);
        assert(visuals@.subrange(0, 1)[0] == visuals@[0]);
    }
    while i < visuals.len()
        invariant
            1 <= i <= visuals@.len(),
            best < i,
            best == best_visual_idx(visuals@.subrange(0, i as int)),
        decreases visuals@.len() - i,
    {
        let ghost pre = visuals@.subrange(0, i as int);
        let ghost post = visuals@.subrange(0, i + 1 as int);
        proof {
            assert(post.drop_last() =~= pre);
            assert(post.last() == visuals@[i as int]);
            lemma_best_visual_in_range(pre);
            assert(pre[best as int] == visuals@[best as int]);
        }
        let cand = &visuals[i];
        let cur = &visuals[best];
        let cand_square = match &cand.dimensions {
            Some(d) => d.0 == d.1,
            None => false,
        };
        let cur_square = match &cur.dimensions {
            Some(d) => d.0 == d.1,
            None => false,
        };
        let cand_area: u64 = vis_area_exec(cand);
        let cur_area: u64 = vis_area_exec(cur);
        proof {
            assert(cand_square == vis_square(visuals@[i as int]));
            assert(cur_square == vis_square(visuals@[best as int]));
        }
        if (cand_square && !cur_square) || (cand_square == cur_square && cand_area > cur_area) {
            best = i;
        }
        i = i + 1;
    }
    proof {
        assert(visuals@.subrange(0, visuals@.len() as int) =~= visuals@);
    }
    let winner = &visuals[best];
    if winner.data.len() > 0 {
        Some(crate::vis::picture2base64(winner.media_type.as_str(), &winner.data))
    } else {
        default
    }
}

/// The image media type a same-directory cover file yields: the stem must
/// mention `cover` or `folder` and the extension must be an image type.
pub open spec fn cover_mime_spec(stem: Seq<char>, ext: Seq<char>) -> Option<Seq<char>> {
    if ext == "jpg"@ || ext == "jpeg"@ || ext == "png"@ {
        if crate::strutil::has_substring(stem, "cover"@) || crate::strutil::has_substring(
            stem,
            "folder"@,
        ) {
            if ext == "png"@ {
                Some("image/png"@)
            } else {
                Some("image/jpeg"@)
            }
        } else {
            None
        }
    } else {
        None
    }
}

/// Decides whether a directory entry is a usable default cover image, and
/// with which media type: stems mentioning `cover` or `folder`, with a
/// `jpg`, `jpeg` or `png` extension.
pub fn cover_image_mime(stem: &str, ext: &str) -> (r: Option<&'static str>)
    ensures
        match r {
            Some(m) => cover_mime_spec(stem@, ext@) == Some(m@),
            None => cover_mime_spec(stem@, ext@) is None,
        },
{
    let ec = str_chars(ext);
    let is_jpg = crate::strutil::chars_eq_str(&ec, "jpg") || crate::strutil::chars_eq_str(
        &ec,
        "jpeg",
    );
    let is_png = crate::strutil::chars_eq_str(&ec, "png");
    if !is_jpg && !is_png {
        return None;
    }
    let sc = str_chars(stem);
    let cover = str_chars("cover");
    let folder = str_chars("folder");
    if crate::strutil::contains_substring(&sc, &cover) || crate::strutil::contains_substring(
        &sc,
        &folder,
    ) {
        if is_png {
            Some("image/png")
        } else {
            Some("image/jpeg")
        }
    } else {
        None
    }
}

} // verus!
