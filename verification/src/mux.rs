//! Output muxing: FLAC encoding of the assembled mix and metadata
//! embedding into the resulting container.
//!
//! The metadata rewrite inserts the cuesheet text(s) as tag entries
//! (`cuesheet` for a single part, else `cuesheet1`, `cuesheet2`, ...),
//! serializes every present scalar playlist tag field (excluding the album
//! cover reference, the random seed, and the track, pause and content
//! declarations), mirrors `TrackTitle` into an additional `Title` entry, and
//! optionally inserts one front-cover picture block. The rewrite updates the
//! container in place where possible and rebuilds it otherwise; the result
//! says which path was taken.

use vstd::prelude::*;

use crate::numfmt::{dec, push_dec};
use crate::playlist::Playlist;
use crate::strutil::{find_char, find_char_from, lemma_find_char_bounds, str_chars};

verus! {

/// Why muxing failed.
#[derive(Debug, Clone)]
pub enum MuxError {
    /// The encoder refused the parameters or the sample layout.
    EncodingFailed(String),
    /// The metadata rewrite failed.
    MetadataRewriteFailed(String),
    /// A tag key contains `=`, which the container's tag format forbids.
    InvalidTagKey(String),
}

/// A rewritten container, saying which path the rewrite took.
#[derive(Debug, Clone)]
pub enum RewriteOutcome {
    /// The stream was updated in place.
    InPlace(Vec<u8>),
    /// The stream was rebuilt from scratch.
    Rebuilt(Vec<u8>),
}

/// The FLAC stream that encoding the given channels at the given parameters
/// produces, or nothing where the encoder refuses them.
pub uninterp spec fn flac_stream_of(
    channels: Seq<Seq<i32>>,
    sample_rate: u32,
    bits_per_sample: u32,
    n_channels: u8,
    total_samples: u64,
) -> Option<Seq<u8>>;

/// The result of adding the given tags to a FLAC stream's comment block:
/// whether the stream had to be rebuilt, and the new stream; nothing where
/// the rewrite fails.
pub uninterp spec fn flac_tagged_of(
    flac: Seq<u8>,
    tags: Seq<(Seq<char>, Seq<char>)>,
) -> Option<(bool, Seq<u8>)>;

/// The result of adding a front-cover picture block to a FLAC stream.
pub uninterp spec fn flac_with_cover_of(
    flac: Seq<u8>,
    media_type: Seq<char>,
    data: Seq<u8>,
) -> Option<(bool, Seq<u8>)>;

/// The view of a rewrite result: which path was taken, and the bytes.
pub open spec fn rewrite_view(v: (bool, Vec<u8>)) -> (bool, Seq<u8>) {
    (v.0, v.1@)
}

/// The view of exec tag pairs as character sequences.
pub open spec fn pairs_view(r: Seq<(String, String)>) -> Seq<(Seq<char>, Seq<char>)> {
    r.map_values(|e: (String, String)| (e.0@, e.1@))
}

/// Relies on flac_codec's FlacChannelWriter (new, write, finalize) over an
/// in-memory cursor: deterministic in the samples and parameters alone.
/// Encoding fails when the parameters are invalid (bits outside 1..=32,
/// rate at least 2^20, channels outside 1..=8 or not matching the buffers)
/// or the channel lengths disagree with each other or with `total_samples`.
#[verifier::external_body]
fn flac_encode(
    channels: &Vec<Vec<i32>>,
    sample_rate: u32,
    bits_per_sample: u32,
    n_channels: u8,
    total_samples: u64,
) -> (r: Result<Vec<u8>, String>)
    ensures
        r matches Ok(v) ==> flac_stream_of(channels.deep_view(), sample_rate, bits_per_sample, n_channels, total_samples) == Some(v@),
        r is Err ==> flac_stream_of(channels.deep_view(), sample_rate, bits_per_sample, n_channels, total_samples) is None,
{
    let mut cursor = std::io::Cursor::new(Vec::new());
    let opts = flac_codec::encode::Options::best();
    let mut writer = flac_codec::encode::FlacChannelWriter::new(&mut cursor, opts, sample_rate, bits_per_sample, n_channels, Some(total_samples)).map_err(|e| e.to_string())?;
    writer.write(channels).map_err(|e| e.to_string())?;
    writer.finalize().map_err(|e| e.to_string())?;
    Ok(cursor.into_inner())
}

/// Relies on flac_codec::metadata::update_file over in-memory buffers:
/// appends each pair to the Vorbis comment block (creating the block if
/// missing), updating the stream in place where the block sizes allow and
/// rebuilding it otherwise; deterministic in its inputs. The tag format
/// forbids `=` in keys (the crate panics on it), which the requires
/// excludes.
#[verifier::external_body]
fn flac_add_tags(flac: Vec<u8>, tags: &Vec<(String, String)>) -> (r: Result<(bool, Vec<u8>), String>)
    requires
        forall|i: int| 0 <= i < tags@.len() ==> !tags@[i].0@.contains('='),
    ensures
        r matches Ok(v) ==> flac_tagged_of(flac@, pairs_view(tags@)) == Some(rewrite_view(v)),
        r is Err ==> flac_tagged_of(flac@, pairs_view(tags@)) is None,
{
    let mut cursor = std::io::Cursor::new(flac);
    let mut rebuilt: Vec<u8> = Vec::new();
    let res = flac_codec::metadata::update_file::<_, _, flac_codec::Error>(&mut cursor, || Ok(&mut rebuilt), |blocks| {
        blocks.update::<flac_codec::metadata::VorbisComment>(|vc| for (k, v) in tags.iter() {
            vc.insert(k, v);
        });
        Ok(())
    });
    match res {
        Ok(_) if rebuilt.is_empty() => Ok((false, cursor.into_inner())),
        Ok(_) => Ok((true, rebuilt)),
        Err(e) => Err(e.to_string()),
    }
}

/// Relies on flac_codec::metadata::update_file: inserts one front-cover
/// Picture block (dimensions left at zero, as the container permits),
/// updating in place where possible and rebuilding otherwise;
/// deterministic in its inputs.
#[verifier::external_body]
fn flac_add_front_cover(flac: Vec<u8>, media_type: String, data: Vec<u8>) -> (r: Result<
    (bool, Vec<u8>),
    String,
>)
    ensures
        r matches Ok(v) ==> flac_with_cover_of(flac@, media_type@, data@) == Some(rewrite_view(v)),
        r is Err ==> flac_with_cover_of(flac@, media_type@, data@) is None,
{
    let mut cursor = std::io::Cursor::new(flac);
    let mut rebuilt: Vec<u8> = Vec::new();
    let res = flac_codec::metadata::update_file::<_, _, flac_codec::Error>(&mut cursor, || Ok(&mut rebuilt), |blocks| {
        blocks.insert::<flac_codec::metadata::Picture>(flac_codec::metadata::Picture {
            picture_type: flac_codec::metadata::PictureType::FrontCover, media_type,
            description: String::new(), width: 0, height: 0, color_depth: 0, colors_used: None, data,
        });
        Ok(())
    });
    match res {
        Ok(_) if rebuilt.is_empty() => Ok((false, cursor.into_inner())),
        Ok(_) => Ok((true, rebuilt)),
        Err(e) => Err(e.to_string()),
    }
}

/// The tag pair for one optional string field: present and non-empty, or
/// nothing.
pub open spec fn opt_str_pair(name: Seq<char>, v: Option<String>) -> Seq<(Seq<char>, Seq<char>)> {
    match v {
        Some(s) => if s@.len() > 0 {
            seq![(name, s@)]
        } else {
            Seq::empty()
        },
        None => Seq::empty(),
    }
}

/// The tag pair for one optional numeric field, rendered in decimal.
pub open spec fn opt_u32_pair(name: Seq<char>, v: Option<u32>) -> Seq<(Seq<char>, Seq<char>)> {
    match v {
        Some(n) => seq![(name, dec(n as nat))],
        None => Seq::empty(),
    }
}

/// Exec pairs and spec pairs agree element by element.
pub open spec fn pairs_match(r: Seq<(String, String)>, s: Seq<(Seq<char>, Seq<char>)>) -> bool {
    r.len() == s.len() && forall|i: int|
        0 <= i < r.len() ==> (#[trigger] r[i]).0@ == s[i].0 && r[i].1@ == s[i].1
}

fn push_str_field(
    r: &mut Vec<(String, String)>,
    name: &str,
    v: &Option<String>,
    Ghost(acc): Ghost<Seq<(Seq<char>, Seq<char>)>>,
)
    requires
        pairs_match(old(r)@, acc),
    ensures
        pairs_match(final(r)@, acc + opt_str_pair(name@, *v)),
{
    match v {
        Some(s) => {
            if !s.as_str().is_empty() {
                r.push((name.to_owned(), s.clone()));
                proof {
                    assert(acc + opt_str_pair(name@, *v) =~= acc.push((name@, s@)));
                }
            } else {
                proof {
                    assert(acc + opt_str_pair(name@, *v) =~= acc);
                }
            }
        },
        None => {
            proof {
                assert(acc + opt_str_pair(name@, *v) =~= acc);
            }
        },
    }
}

fn push_u32_field(
    r: &mut Vec<(String, String)>,
    name: &str,
    v: &Option<u32>,
    Ghost(acc): Ghost<Seq<(Seq<char>, Seq<char>)>>,
)
    requires
        pairs_match(old(r)@, acc),
    ensures
        pairs_match(final(r)@, acc + opt_u32_pair(name@, *v)),
{
    match v {
        Some(n) => {
            let mut rendered = String::new();
            push_dec(&mut rendered, *n as u64);
            r.push((name.to_owned(), rendered));
            proof {
                assert(acc + opt_u32_pair(name@, *v) =~= acc.push((name@, dec(*n as nat))));
            }
        },
        None => {
            proof {
                assert(acc + opt_u32_pair(name@, *v) =~= acc);
            }
        },
    }
}

/// The passthrough tag pairs of a playlist, in field order: every present,
/// non-empty scalar or numeric tag field, with `TrackTitle` mirrored into an
/// additional `Title` entry just before it. The album cover reference, the
/// random seed and the track, pause and content declarations are not tags
/// and are excluded.
#[verifier::opaque]
pub open spec fn tag_pairs_spec(p: Playlist) -> Seq<(Seq<char>, Seq<char>)> {
    opt_str_pair("AcoustidFingerprint"@, p.AcoustidFingerprint)
        + opt_str_pair("AcoustidId"@, p.AcoustidId)
        + opt_str_pair("Album"@, p.Album)
        + opt_str_pair("AlbumArtist"@, p.AlbumArtist)
        + opt_str_pair("Arranger"@, p.Arranger)
        + opt_str_pair("Artist"@, p.Artist)
        + opt_u32_pair("Bpm"@, p.Bpm)
        + opt_str_pair("Comment"@, p.Comment)
        + opt_str_pair("Compilation"@, p.Compilation)
        + opt_str_pair("Composer"@, p.Composer)
        + opt_str_pair("Conductor"@, p.Conductor)
        + opt_str_pair("ContentGroup"@, p.ContentGroup)
        + opt_str_pair("Copyright"@, p.Copyright)
        + opt_str_pair("Date"@, p.Date)
        + opt_str_pair("Description"@, p.Description)
        + opt_u32_pair("DiscNumber"@, p.DiscNumber)
        + opt_str_pair("DiscSubtitle"@, p.DiscSubtitle)
        + opt_u32_pair("DiscTotal"@, p.DiscTotal)
        + opt_str_pair("EncodedBy"@, p.EncodedBy)
        + opt_str_pair("Encoder"@, p.Encoder)
        + opt_str_pair("EncoderSettings"@, p.EncoderSettings)
        + opt_str_pair("EncodingDate"@, p.EncodingDate)
        + opt_str_pair("Engineer"@, p.Engineer)
        + opt_str_pair("Ensemble"@, p.Ensemble)
        + opt_str_pair("Genre"@, p.Genre)
        + opt_str_pair("IdentAsin"@, p.IdentAsin)
        + opt_str_pair("IdentBarcode"@, p.IdentBarcode)
        + opt_str_pair("IdentCatalogNumber"@, p.IdentCatalogNumber)
        + opt_str_pair("IdentEanUpn"@, p.IdentEanUpn)
        + opt_str_pair("IdentIsrc"@, p.IdentIsrc)
        + opt_str_pair("IdentPn"@, p.IdentPn)
        + opt_str_pair("IdentPodcast"@, p.IdentPodcast)
        + opt_str_pair("IdentUpc"@, p.IdentUpc)
        + opt_str_pair("Label"@, p.Label)
        + opt_str_pair("Language"@, p.Language)
        + opt_str_pair("License"@, p.License)
        + opt_str_pair("Lyricist"@, p.Lyricist)
        + opt_str_pair("Lyrics"@, p.Lyrics)
        + opt_str_pair("MediaFormat"@, p.MediaFormat)
        + opt_str_pair("MixDj"@, p.MixDj)
        + opt_str_pair("MixEngineer"@, p.MixEngineer)
        + opt_str_pair("Mood"@, p.Mood)
        + opt_str_pair("MovementName"@, p.MovementName)
        + opt_u32_pair("MovementNumber"@, p.MovementNumber)
        + opt_str_pair("MusicBrainzAlbumArtistId"@, p.MusicBrainzAlbumArtistId)
        + opt_str_pair("MusicBrainzAlbumId"@, p.MusicBrainzAlbumId)
        + opt_str_pair("MusicBrainzArtistId"@, p.MusicBrainzArtistId)
        + opt_str_pair("MusicBrainzDiscId"@, p.MusicBrainzDiscId)
        + opt_str_pair("MusicBrainzGenreId"@, p.MusicBrainzGenreId)
        + opt_str_pair("MusicBrainzLabelId"@, p.MusicBrainzLabelId)
        + opt_str_pair("MusicBrainzOriginalAlbumId"@, p.MusicBrainzOriginalAlbumId)
        + opt_str_pair("MusicBrainzOriginalArtistId"@, p.MusicBrainzOriginalArtistId)
        + opt_str_pair("MusicBrainzRecordingId"@, p.MusicBrainzRecordingId)
        + opt_str_pair("MusicBrainzReleaseGroupId"@, p.MusicBrainzReleaseGroupId)
        + opt_str_pair("MusicBrainzReleaseStatus"@, p.MusicBrainzReleaseStatus)
        + opt_str_pair("MusicBrainzReleaseTrackId"@, p.MusicBrainzReleaseTrackId)
        + opt_str_pair("MusicBrainzReleaseType"@, p.MusicBrainzReleaseType)
        + opt_str_pair("MusicBrainzTrackId"@, p.MusicBrainzTrackId)
        + opt_str_pair("MusicBrainzWorkId"@, p.MusicBrainzWorkId)
        + opt_str_pair("Opus"@, p.Opus)
        + opt_str_pair("OriginalAlbum"@, p.OriginalAlbum)
        + opt_str_pair("OriginalArtist"@, p.OriginalArtist)
        + opt_str_pair("OriginalDate"@, p.OriginalDate)
        + opt_str_pair("OriginalFile"@, p.OriginalFile)
        + opt_str_pair("OriginalWriter"@, p.OriginalWriter)
        + opt_str_pair("Owner"@, p.Owner)
        + opt_u32_pair("Part"@, p.Part)
        + opt_u32_pair("PartTotal"@, p.PartTotal)
        + opt_str_pair("Performer"@, p.Performer)
        + opt_str_pair("Podcast"@, p.Podcast)
        + opt_str_pair("PodcastCategory"@, p.PodcastCategory)
        + opt_str_pair("PodcastDescription"@, p.PodcastDescription)
        + opt_str_pair("PodcastKeywords"@, p.PodcastKeywords)
        + opt_str_pair("Producer"@, p.Producer)
        + opt_str_pair("PurchaseDate"@, p.PurchaseDate)
        + opt_u32_pair("Rating"@, p.Rating)
        + opt_str_pair("ReleaseCountry"@, p.ReleaseCountry)
        + opt_str_pair("ReleaseDate"@, p.ReleaseDate)
        + opt_str_pair("Remixer"@, p.Remixer)
        + opt_str_pair("ReplayGainAlbumGain"@, p.ReplayGainAlbumGain)
        + opt_str_pair("ReplayGainAlbumPeak"@, p.ReplayGainAlbumPeak)
        + opt_str_pair("ReplayGainTrackGain"@, p.ReplayGainTrackGain)
        + opt_str_pair("ReplayGainTrackPeak"@, p.ReplayGainTrackPeak)
        + opt_str_pair("Script"@, p.Script)
        + opt_str_pair("SortAlbum"@, p.SortAlbum)
        + opt_str_pair("SortAlbumArtist"@, p.SortAlbumArtist)
        + opt_str_pair("SortArtist"@, p.SortArtist)
        + opt_str_pair("SortComposer"@, p.SortComposer)
        + opt_str_pair("SortTrackTitle"@, p.SortTrackTitle)
        + opt_str_pair("TaggingDate"@, p.TaggingDate)
        + opt_u32_pair("TrackNumber"@, p.TrackNumber)
        + opt_str_pair("TrackSubtitle"@, p.TrackSubtitle)
        + opt_str_pair("Title"@, p.TrackTitle)
        + opt_str_pair("TrackTitle"@, p.TrackTitle)
        + opt_u32_pair("TrackTotal"@, p.TrackTotal)
        + opt_u32_pair("TvEpisode"@, p.TvEpisode)
        + opt_str_pair("TvEpisodeTitle"@, p.TvEpisodeTitle)
        + opt_str_pair("TvNetwork"@, p.TvNetwork)
        + opt_u32_pair("TvSeason"@, p.TvSeason)
        + opt_str_pair("TvShowTitle"@, p.TvShowTitle)
        + opt_str_pair("Url"@, p.Url)
        + opt_str_pair("UrlArtist"@, p.UrlArtist)
        + opt_str_pair("UrlCopyright"@, p.UrlCopyright)
        + opt_str_pair("UrlInternetRadio"@, p.UrlInternetRadio)
        + opt_str_pair("UrlLabel"@, p.UrlLabel)
        + opt_str_pair("UrlOfficial"@, p.UrlOfficial)
        + opt_str_pair("UrlPayment"@, p.UrlPayment)
        + opt_str_pair("UrlPodcast"@, p.UrlPodcast)
        + opt_str_pair("UrlPurchase"@, p.UrlPurchase)
        + opt_str_pair("UrlSource"@, p.UrlSource)
        + opt_str_pair("Version"@, p.Version)
        + opt_str_pair("Writer"@, p.Writer)
}

/// Serializes the playlist's passthrough tag fields as tag pairs.
pub fn playlist_tag_pairs(playlist: &Playlist) -> (r: Vec<(String, String)>)
    ensures
        pairs_match(r@, tag_pairs_spec(*playlist)),
{
    let mut r: Vec<(String, String)> = Vec::new();
    let ghost mut acc: Seq<(Seq<char>, Seq<char>)> = Seq::empty();
    proof {
        assert(r@.len() == 0);
    }
    push_str_field(&mut r, "AcoustidFingerprint", &playlist.AcoustidFingerprint, Ghost(acc));
    proof { acc = acc + opt_str_pair("AcoustidFingerprint"@, playlist.AcoustidFingerprint); }
    push_str_field(&mut r, "AcoustidId", &playlist.AcoustidId, Ghost(acc));
    proof { acc = acc + opt_str_pair("AcoustidId"@, playlist.AcoustidId); }
    push_str_field(&mut r, "Album", &playlist.Album, Ghost(acc));
    proof { acc = acc + opt_str_pair("Album"@, playlist.Album); }
    push_str_field(&mut r, "AlbumArtist", &playlist.AlbumArtist, Ghost(acc));
    proof { acc = acc + opt_str_pair("AlbumArtist"@, playlist.AlbumArtist); }
    push_str_field(&mut r, "Arranger", &playlist.Arranger, Ghost(acc));
    proof { acc = acc + opt_str_pair("Arranger"@, playlist.Arranger); }
    push_str_field(&mut r, "Artist", &playlist.Artist, Ghost(acc));
    proof { acc = acc + opt_str_pair("Artist"@, playlist.Artist); }
    push_u32_field(&mut r, "Bpm", &playlist.Bpm, Ghost(acc));
    proof { acc = acc + opt_u32_pair("Bpm"@, playlist.Bpm); }
    push_str_field(&mut r, "Comment", &playlist.Comment, Ghost(acc));
    proof { acc = acc + opt_str_pair("Comment"@, playlist.Comment); }
    push_str_field(&mut r, "Compilation", &playlist.Compilation, Ghost(acc));
    proof { acc = acc + opt_str_pair("Compilation"@, playlist.Compilation); }
    push_str_field(&mut r, "Composer", &playlist.Composer, Ghost(acc));
    proof { acc = acc + opt_str_pair("Composer"@, playlist.Composer); }
    push_str_field(&mut r, "Conductor", &playlist.Conductor, Ghost(acc));
    proof { acc = acc + opt_str_pair("Conductor"@, playlist.Conductor); }
    push_str_field(&mut r, "ContentGroup", &playlist.ContentGroup, Ghost(acc));
    proof { acc = acc + opt_str_pair("ContentGroup"@, playlist.ContentGroup); }
    push_str_field(&mut r, "Copyright", &playlist.Copyright, Ghost(acc));
    proof { acc = acc + opt_str_pair("Copyright"@, playlist.Copyright); }
    push_str_field(&mut r, "Date", &playlist.Date, Ghost(acc));
    proof { acc = acc + opt_str_pair("Date"@, playlist.Date); }
    push_str_field(&mut r, "Description", &playlist.Description, Ghost(acc));
    proof { acc = acc + opt_str_pair("Description"@, playlist.Description); }
    push_u32_field(&mut r, "DiscNumber", &playlist.DiscNumber, Ghost(acc));
    proof { acc = acc + opt_u32_pair("DiscNumber"@, playlist.DiscNumber); }
    push_str_field(&mut r, "DiscSubtitle", &playlist.DiscSubtitle, Ghost(acc));
    proof { acc = acc + opt_str_pair("DiscSubtitle"@, playlist.DiscSubtitle); }
    push_u32_field(&mut r, "DiscTotal", &playlist.DiscTotal, Ghost(acc));
    proof { acc = acc + opt_u32_pair("DiscTotal"@, playlist.DiscTotal); }
    push_str_field(&mut r, "EncodedBy", &playlist.EncodedBy, Ghost(acc));
    proof { acc = acc + opt_str_pair("EncodedBy"@, playlist.EncodedBy); }
    push_str_field(&mut r, "Encoder", &playlist.Encoder, Ghost(acc));
    proof { acc = acc + opt_str_pair("Encoder"@, playlist.Encoder); }
    push_str_field(&mut r, "EncoderSettings", &playlist.EncoderSettings, Ghost(acc));
    proof { acc = acc + opt_str_pair("EncoderSettings"@, playlist.EncoderSettings); }
    push_str_field(&mut r, "EncodingDate", &playlist.EncodingDate, Ghost(acc));
    proof { acc = acc + opt_str_pair("EncodingDate"@, playlist.EncodingDate); }
    push_str_field(&mut r, "Engineer", &playlist.Engineer, Ghost(acc));
    proof { acc = acc + opt_str_pair("Engineer"@, playlist.Engineer); }
    push_str_field(&mut r, "Ensemble", &playlist.Ensemble, Ghost(acc));
    proof { acc = acc + opt_str_pair("Ensemble"@, playlist.Ensemble); }
    push_str_field(&mut r, "Genre", &playlist.Genre, Ghost(acc));
    proof { acc = acc + opt_str_pair("Genre"@, playlist.Genre); }
    push_str_field(&mut r, "IdentAsin", &playlist.IdentAsin, Ghost(acc));
    proof { acc = acc + opt_str_pair("IdentAsin"@, playlist.IdentAsin); }
    push_str_field(&mut r, "IdentBarcode", &playlist.IdentBarcode, Ghost(acc));
    proof { acc = acc + opt_str_pair("IdentBarcode"@, playlist.IdentBarcode); }
    push_str_field(&mut r, "IdentCatalogNumber", &playlist.IdentCatalogNumber, Ghost(acc));
    proof { acc = acc + opt_str_pair("IdentCatalogNumber"@, playlist.IdentCatalogNumber); }
    push_str_field(&mut r, "IdentEanUpn", &playlist.IdentEanUpn, Ghost(acc));
    proof { acc = acc + opt_str_pair("IdentEanUpn"@, playlist.IdentEanUpn); }
    push_str_field(&mut r, "IdentIsrc", &playlist.IdentIsrc, Ghost(acc));
    proof { acc = acc + opt_str_pair("IdentIsrc"@, playlist.IdentIsrc); }
    push_str_field(&mut r, "IdentPn", &playlist.IdentPn, Ghost(acc));
    proof { acc = acc + opt_str_pair("IdentPn"@, playlist.IdentPn); }
    push_str_field(&mut r, "IdentPodcast", &playlist.IdentPodcast, Ghost(acc));
    proof { acc = acc + opt_str_pair("IdentPodcast"@, playlist.IdentPodcast); }
    push_str_field(&mut r, "IdentUpc", &playlist.IdentUpc, Ghost(acc));
    proof { acc = acc + opt_str_pair("IdentUpc"@, playlist.IdentUpc); }
    push_str_field(&mut r, "Label", &playlist.Label, Ghost(acc));
    proof { acc = acc + opt_str_pair("Label"@, playlist.Label); }
    push_str_field(&mut r, "Language", &playlist.Language, Ghost(acc));
    proof { acc = acc + opt_str_pair("Language"@, playlist.Language); }
    push_str_field(&mut r, "License", &playlist.License, Ghost(acc));
    proof { acc = acc + opt_str_pair("License"@, playlist.License); }
    push_str_field(&mut r, "Lyricist", &playlist.Lyricist, Ghost(acc));
    proof { acc = acc + opt_str_pair("Lyricist"@, playlist.Lyricist); }
    push_str_field(&mut r, "Lyrics", &playlist.Lyrics, Ghost(acc));
    proof { acc = acc + opt_str_pair("Lyrics"@, playlist.Lyrics); }
    push_str_field(&mut r, "MediaFormat", &playlist.MediaFormat, Ghost(acc));
    proof { acc = acc + opt_str_pair("MediaFormat"@, playlist.MediaFormat); }
    push_str_field(&mut r, "MixDj", &playlist.MixDj, Ghost(acc));
    proof { acc = acc + opt_str_pair("MixDj"@, playlist.MixDj); }
    push_str_field(&mut r, "MixEngineer", &playlist.MixEngineer, Ghost(acc));
    proof { acc = acc + opt_str_pair("MixEngineer"@, playlist.MixEngineer); }
    push_str_field(&mut r, "Mood", &playlist.Mood, Ghost(acc));
    proof { acc = acc + opt_str_pair("Mood"@, playlist.Mood); }
    push_str_field(&mut r, "MovementName", &playlist.MovementName, Ghost(acc));
    proof { acc = acc + opt_str_pair("MovementName"@, playlist.MovementName); }
    push_u32_field(&mut r, "MovementNumber", &playlist.MovementNumber, Ghost(acc));
    proof { acc = acc + opt_u32_pair("MovementNumber"@, playlist.MovementNumber); }
    push_str_field(&mut r, "MusicBrainzAlbumArtistId", &playlist.MusicBrainzAlbumArtistId, Ghost(acc));
    proof { acc = acc + opt_str_pair("MusicBrainzAlbumArtistId"@, playlist.MusicBrainzAlbumArtistId); }
    push_str_field(&mut r, "MusicBrainzAlbumId", &playlist.MusicBrainzAlbumId, Ghost(acc));
    proof { acc = acc + opt_str_pair("MusicBrainzAlbumId"@, playlist.MusicBrainzAlbumId); }
    push_str_field(&mut r, "MusicBrainzArtistId", &playlist.MusicBrainzArtistId, Ghost(acc));
    proof { acc = acc + opt_str_pair("MusicBrainzArtistId"@, playlist.MusicBrainzArtistId); }
    push_str_field(&mut r, "MusicBrainzDiscId", &playlist.MusicBrainzDiscId, Ghost(acc));
    proof { acc = acc + opt_str_pair("MusicBrainzDiscId"@, playlist.MusicBrainzDiscId); }
    push_str_field(&mut r, "MusicBrainzGenreId", &playlist.MusicBrainzGenreId, Ghost(acc));
    proof { acc = acc + opt_str_pair("MusicBrainzGenreId"@, playlist.MusicBrainzGenreId); }
    push_str_field(&mut r, "MusicBrainzLabelId", &playlist.MusicBrainzLabelId, Ghost(acc));
    proof { acc = acc + opt_str_pair("MusicBrainzLabelId"@, playlist.MusicBrainzLabelId); }
    push_str_field(&mut r, "MusicBrainzOriginalAlbumId", &playlist.MusicBrainzOriginalAlbumId, Ghost(acc));
    proof { acc = acc + opt_str_pair("MusicBrainzOriginalAlbumId"@, playlist.MusicBrainzOriginalAlbumId); }
    push_str_field(&mut r, "MusicBrainzOriginalArtistId", &playlist.MusicBrainzOriginalArtistId, Ghost(acc));
    proof { acc = acc + opt_str_pair("MusicBrainzOriginalArtistId"@, playlist.MusicBrainzOriginalArtistId); }
    push_str_field(&mut r, "MusicBrainzRecordingId", &playlist.MusicBrainzRecordingId, Ghost(acc));
    proof { acc = acc + opt_str_pair("MusicBrainzRecordingId"@, playlist.MusicBrainzRecordingId); }
    push_str_field(&mut r, "MusicBrainzReleaseGroupId", &playlist.MusicBrainzReleaseGroupId, Ghost(acc));
    proof { acc = acc + opt_str_pair("MusicBrainzReleaseGroupId"@, playlist.MusicBrainzReleaseGroupId); }
    push_str_field(&mut r, "MusicBrainzReleaseStatus", &playlist.MusicBrainzReleaseStatus, Ghost(acc));
    proof { acc = acc + opt_str_pair("MusicBrainzReleaseStatus"@, playlist.MusicBrainzReleaseStatus); }
    push_str_field(&mut r, "MusicBrainzReleaseTrackId", &playlist.MusicBrainzReleaseTrackId, Ghost(acc));
    proof { acc = acc + opt_str_pair("MusicBrainzReleaseTrackId"@, playlist.MusicBrainzReleaseTrackId); }
    push_str_field(&mut r, "MusicBrainzReleaseType", &playlist.MusicBrainzReleaseType, Ghost(acc));
    proof { acc = acc + opt_str_pair("MusicBrainzReleaseType"@, playlist.MusicBrainzReleaseType); }
    push_str_field(&mut r, "MusicBrainzTrackId", &playlist.MusicBrainzTrackId, Ghost(acc));
    proof { acc = acc + opt_str_pair("MusicBrainzTrackId"@, playlist.MusicBrainzTrackId); }
    push_str_field(&mut r, "MusicBrainzWorkId", &playlist.MusicBrainzWorkId, Ghost(acc));
    proof { acc = acc + opt_str_pair("MusicBrainzWorkId"@, playlist.MusicBrainzWorkId); }
    push_str_field(&mut r, "Opus", &playlist.Opus, Ghost(acc));
    proof { acc = acc + opt_str_pair("Opus"@, playlist.Opus); }
    push_str_field(&mut r, "OriginalAlbum", &playlist.OriginalAlbum, Ghost(acc));
    proof { acc = acc + opt_str_pair("OriginalAlbum"@, playlist.OriginalAlbum); }
    push_str_field(&mut r, "OriginalArtist", &playlist.OriginalArtist, Ghost(acc));
    proof { acc = acc + opt_str_pair("OriginalArtist"@, playlist.OriginalArtist); }
    push_str_field(&mut r, "OriginalDate", &playlist.OriginalDate, Ghost(acc));
    proof { acc = acc + opt_str_pair("OriginalDate"@, playlist.OriginalDate); }
    push_str_field(&mut r, "OriginalFile", &playlist.OriginalFile, Ghost(acc));
    proof { acc = acc + opt_str_pair("OriginalFile"@, playlist.OriginalFile); }
    push_str_field(&mut r, "OriginalWriter", &playlist.OriginalWriter, Ghost(acc));
    proof { acc = acc + opt_str_pair("OriginalWriter"@, playlist.OriginalWriter); }
    push_str_field(&mut r, "Owner", &playlist.Owner, Ghost(acc));
    proof { acc = acc + opt_str_pair("Owner"@, playlist.Owner); }
    push_u32_field(&mut r, "Part", &playlist.Part, Ghost(acc));
    proof { acc = acc + opt_u32_pair("Part"@, playlist.Part); }
    push_u32_field(&mut r, "PartTotal", &playlist.PartTotal, Ghost(acc));
    proof { acc = acc + opt_u32_pair("PartTotal"@, playlist.PartTotal); }
    push_str_field(&mut r, "Performer", &playlist.Performer, Ghost(acc));
    proof { acc = acc + opt_str_pair("Performer"@, playlist.Performer); }
    push_str_field(&mut r, "Podcast", &playlist.Podcast, Ghost(acc));
    proof { acc = acc + opt_str_pair("Podcast"@, playlist.Podcast); }
    push_str_field(&mut r, "PodcastCategory", &playlist.PodcastCategory, Ghost(acc));
    proof { acc = acc + opt_str_pair("PodcastCategory"@, playlist.PodcastCategory); }
    push_str_field(&mut r, "PodcastDescription", &playlist.PodcastDescription, Ghost(acc));
    proof { acc = acc + opt_str_pair("PodcastDescription"@, playlist.PodcastDescription); }
    push_str_field(&mut r, "PodcastKeywords", &playlist.PodcastKeywords, Ghost(acc));
    proof { acc = acc + opt_str_pair("PodcastKeywords"@, playlist.PodcastKeywords); }
    push_str_field(&mut r, "Producer", &playlist.Producer, Ghost(acc));
    proof { acc = acc + opt_str_pair("Producer"@, playlist.Producer); }
    push_str_field(&mut r, "PurchaseDate", &playlist.PurchaseDate, Ghost(acc));
    proof { acc = acc + opt_str_pair("PurchaseDate"@, playlist.PurchaseDate); }
    push_u32_field(&mut r, "Rating", &playlist.Rating, Ghost(acc));
    proof { acc = acc + opt_u32_pair("Rating"@, playlist.Rating); }
    push_str_field(&mut r, "ReleaseCountry", &playlist.ReleaseCountry, Ghost(acc));
    proof { acc = acc + opt_str_pair("ReleaseCountry"@, playlist.ReleaseCountry); }
    push_str_field(&mut r, "ReleaseDate", &playlist.ReleaseDate, Ghost(acc));
    proof { acc = acc + opt_str_pair("ReleaseDate"@, playlist.ReleaseDate); }
    push_str_field(&mut r, "Remixer", &playlist.Remixer, Ghost(acc));
    proof { acc = acc + opt_str_pair("Remixer"@, playlist.Remixer); }
    push_str_field(&mut r, "ReplayGainAlbumGain", &playlist.ReplayGainAlbumGain, Ghost(acc));
    proof { acc = acc + opt_str_pair("ReplayGainAlbumGain"@, playlist.ReplayGainAlbumGain); }
    push_str_field(&mut r, "ReplayGainAlbumPeak", &playlist.ReplayGainAlbumPeak, Ghost(acc));
    proof { acc = acc + opt_str_pair("ReplayGainAlbumPeak"@, playlist.ReplayGainAlbumPeak); }
    push_str_field(&mut r, "ReplayGainTrackGain", &playlist.ReplayGainTrackGain, Ghost(acc));
    proof { acc = acc + opt_str_pair("ReplayGainTrackGain"@, playlist.ReplayGainTrackGain); }
    push_str_field(&mut r, "ReplayGainTrackPeak", &playlist.ReplayGainTrackPeak, Ghost(acc));
    proof { acc = acc + opt_str_pair("ReplayGainTrackPeak"@, playlist.ReplayGainTrackPeak); }
    push_str_field(&mut r, "Script", &playlist.Script, Ghost(acc));
    proof { acc = acc + opt_str_pair("Script"@, playlist.Script); }
    push_str_field(&mut r, "SortAlbum", &playlist.SortAlbum, Ghost(acc));
    proof { acc = acc + opt_str_pair("SortAlbum"@, playlist.SortAlbum); }
    push_str_field(&mut r, "SortAlbumArtist", &playlist.SortAlbumArtist, Ghost(acc));
    proof { acc = acc + opt_str_pair("SortAlbumArtist"@, playlist.SortAlbumArtist); }
    push_str_field(&mut r, "SortArtist", &playlist.SortArtist, Ghost(acc));
    proof { acc = acc + opt_str_pair("SortArtist"@, playlist.SortArtist); }
    push_str_field(&mut r, "SortComposer", &playlist.SortComposer, Ghost(acc));
    proof { acc = acc + opt_str_pair("SortComposer"@, playlist.SortComposer); }
    push_str_field(&mut r, "SortTrackTitle", &playlist.SortTrackTitle, Ghost(acc));
    proof { acc = acc + opt_str_pair("SortTrackTitle"@, playlist.SortTrackTitle); }
    push_str_field(&mut r, "TaggingDate", &playlist.TaggingDate, Ghost(acc));
    proof { acc = acc + opt_str_pair("TaggingDate"@, playlist.TaggingDate); }
    push_u32_field(&mut r, "TrackNumber", &playlist.TrackNumber, Ghost(acc));
    proof { acc = acc + opt_u32_pair("TrackNumber"@, playlist.TrackNumber); }
    push_str_field(&mut r, "TrackSubtitle", &playlist.TrackSubtitle, Ghost(acc));
    proof { acc = acc + opt_str_pair("TrackSubtitle"@, playlist.TrackSubtitle); }
    push_str_field(&mut r, "Title", &playlist.TrackTitle, Ghost(acc));
    proof { acc = acc + opt_str_pair("Title"@, playlist.TrackTitle); }
    push_str_field(&mut r, "TrackTitle", &playlist.TrackTitle, Ghost(acc));
    proof { acc = acc + opt_str_pair("TrackTitle"@, playlist.TrackTitle); }
    push_u32_field(&mut r, "TrackTotal", &playlist.TrackTotal, Ghost(acc));
    proof { acc = acc + opt_u32_pair("TrackTotal"@, playlist.TrackTotal); }
    push_u32_field(&mut r, "TvEpisode", &playlist.TvEpisode, Ghost(acc));
    proof { acc = acc + opt_u32_pair("TvEpisode"@, playlist.TvEpisode); }
    push_str_field(&mut r, "TvEpisodeTitle", &playlist.TvEpisodeTitle, Ghost(acc));
    proof { acc = acc + opt_str_pair("TvEpisodeTitle"@, playlist.TvEpisodeTitle); }
    push_str_field(&mut r, "TvNetwork", &playlist.TvNetwork, Ghost(acc));
    proof { acc = acc + opt_str_pair("TvNetwork"@, playlist.TvNetwork); }
    push_u32_field(&mut r, "TvSeason", &playlist.TvSeason, Ghost(acc));
    proof { acc = acc + opt_u32_pair("TvSeason"@, playlist.TvSeason); }
    push_str_field(&mut r, "TvShowTitle", &playlist.TvShowTitle, Ghost(acc));
    proof { acc = acc + opt_str_pair("TvShowTitle"@, playlist.TvShowTitle); }
    push_str_field(&mut r, "Url", &playlist.Url, Ghost(acc));
    proof { acc = acc + opt_str_pair("Url"@, playlist.Url); }
    push_str_field(&mut r, "UrlArtist", &playlist.UrlArtist, Ghost(acc));
    proof { acc = acc + opt_str_pair("UrlArtist"@, playlist.UrlArtist); }
    push_str_field(&mut r, "UrlCopyright", &playlist.UrlCopyright, Ghost(acc));
    proof { acc = acc + opt_str_pair("UrlCopyright"@, playlist.UrlCopyright); }
    push_str_field(&mut r, "UrlInternetRadio", &playlist.UrlInternetRadio, Ghost(acc));
    proof { acc = acc + opt_str_pair("UrlInternetRadio"@, playlist.UrlInternetRadio); }
    push_str_field(&mut r, "UrlLabel", &playlist.UrlLabel, Ghost(acc));
    proof { acc = acc + opt_str_pair("UrlLabel"@, playlist.UrlLabel); }
    push_str_field(&mut r, "UrlOfficial", &playlist.UrlOfficial, Ghost(acc));
    proof { acc = acc + opt_str_pair("UrlOfficial"@, playlist.UrlOfficial); }
    push_str_field(&mut r, "UrlPayment", &playlist.UrlPayment, Ghost(acc));
    proof { acc = acc + opt_str_pair("UrlPayment"@, playlist.UrlPayment); }
    push_str_field(&mut r, "UrlPodcast", &playlist.UrlPodcast, Ghost(acc));
    proof { acc = acc + opt_str_pair("UrlPodcast"@, playlist.UrlPodcast); }
    push_str_field(&mut r, "UrlPurchase", &playlist.UrlPurchase, Ghost(acc));
    proof { acc = acc + opt_str_pair("UrlPurchase"@, playlist.UrlPurchase); }
    push_str_field(&mut r, "UrlSource", &playlist.UrlSource, Ghost(acc));
    proof { acc = acc + opt_str_pair("UrlSource"@, playlist.UrlSource); }
    push_str_field(&mut r, "Version", &playlist.Version, Ghost(acc));
    proof { acc = acc + opt_str_pair("Version"@, playlist.Version); }
    push_str_field(&mut r, "Writer", &playlist.Writer, Ghost(acc));
    proof { acc = acc + opt_str_pair("Writer"@, playlist.Writer); }
    proof {
        reveal(tag_pairs_spec);
        assert(acc =~= tag_pairs_spec(*playlist));
    }
    r
}

/// The name of cuesheet part `i` of `n`: `cuesheet` for a single part, else
/// `cuesheet1`, `cuesheet2`, ...
pub open spec fn cuesheet_tag_name(n: nat, i: nat) -> Seq<char> {
    if n == 1 {
        "cuesheet"@
    } else {
        "cuesheet"@ + dec(i + 1)
    }
}

/// Builds the tag pairs carrying the cuesheet text(s).
pub fn cuesheet_tag_pairs(cuesheets: &Vec<String>) -> (r: Vec<(String, String)>)
    ensures
        r@.len() == cuesheets@.len(),
        forall|i: int|
            0 <= i < r@.len() ==> (#[trigger] r@[i]).0@ == cuesheet_tag_name(
                cuesheets@.len() as nat,
                i as nat,
            ) && r@[i].1@ == cuesheets@[i]@,
{
    let mut r: Vec<(String, String)> = Vec::new();
    if cuesheets.len() == 1 {
        r.push(("cuesheet".to_owned(), cuesheets[0].clone()));
        return r;
    }
    let mut i: usize = 0;
    while i < cuesheets.len()
        invariant
            i <= cuesheets@.len(),
            cuesheets@.len() != 1,
            r@.len() == i,
            forall|j: int|
                0 <= j < i ==> (#[trigger] r@[j]).0@ == cuesheet_tag_name(
                    cuesheets@.len() as nat,
                    j as nat,
                ) && r@[j].1@ == cuesheets@[j]@,
        decreases cuesheets@.len() - i,
    {
        let mut name = String::new();
        name.append("cuesheet");
        push_dec(&mut name, (i + 1) as u64);
        r.push((name, cuesheets[i].clone()));
        i = i + 1;
    }
    r
}


proof fn lemma_find_char_none(s: Seq<char>, from: int, c: char)
    requires
        0 <= from,
        find_char_from(s, from, c) is None,
    ensures
        forall|i: int| from <= i < s.len() ==> s[i] != c,
    decreases s.len() - from,
{
    if 0 <= from && from < s.len() {
        lemma_find_char_none(s, from + 1, c);
    }
}

/// Encodes the quantized per-channel PCM into a FLAC stream at the chosen
/// parameters. Returns exactly the stream the encoder produces for these
/// inputs, or the encoder's failure.
pub fn encode_mix(
    channels: &Vec<Vec<i32>>,
    sample_rate: u32,
    bits_per_sample: u32,
    n_channels: u8,
    total_samples: u64,
) -> (r: Result<Vec<u8>, MuxError>)
    ensures
        r matches Ok(v) ==> flac_stream_of(channels.deep_view(), sample_rate, bits_per_sample, n_channels, total_samples) == Some(v@),
        r is Err ==> flac_stream_of(channels.deep_view(), sample_rate, bits_per_sample, n_channels, total_samples) is None,
{
    match flac_encode(channels, sample_rate, bits_per_sample, n_channels, total_samples) {
        Ok(v) => Ok(v),
        Err(e) => Err(MuxError::EncodingFailed(e)),
    }
}

/// The tag pairs a playlist and its cuesheets embed: the cuesheet entries
/// first, then the passthrough fields.
pub open spec fn all_tag_pairs(cuesheets: Seq<String>, p: Playlist) -> Seq<(Seq<char>, Seq<char>)> {
    Seq::new(cuesheets.len(), |i: int| (cuesheet_tag_name(cuesheets.len() as nat, i as nat), cuesheets[i]@))
        + tag_pairs_spec(p)
}

/// Rewrites a FLAC stream's metadata: inserts the cuesheet tag entries and
/// the playlist's passthrough tags, and, when a cover image is given, one
/// front-cover picture block. The result says whether the stream was
/// rebuilt or updated in place (with a picture, the picture pass decides).
/// Fails only where the container rewrite itself fails, or where a tag key
/// contains `=`.
#[verifier::rlimit(40)]
pub fn embed_metadata(
    flac: Vec<u8>,
    cuesheets: &Vec<String>,
    playlist: &Playlist,
    cover: Option<(String, Vec<u8>)>,
) -> (r: Result<RewriteOutcome, MuxError>)
    ensures
        ({
            let pairs = all_tag_pairs(cuesheets@, *playlist);
            &&& (r matches Err(MuxError::InvalidTagKey(k)) ==> k@.contains('='))
            &&& (cover is None ==> ((r matches Ok(RewriteOutcome::InPlace(b))
                ==> flac_tagged_of(flac@, pairs) == Some((false, b@))) && (r matches Ok(
                RewriteOutcome::Rebuilt(b),
            ) ==> flac_tagged_of(flac@, pairs) == Some((true, b@)))))
            &&& (cover matches Some(cv) ==> ((r matches Ok(RewriteOutcome::InPlace(b)) ==> (
            flac_tagged_of(flac@, pairs) matches Some(p1) && flac_with_cover_of(
                p1.1,
                cv.0@,
                cv.1@,
            ) == Some((false, b@)))) && (r matches Ok(RewriteOutcome::Rebuilt(b)) ==> (
            flac_tagged_of(flac@, pairs) matches Some(p1) && flac_with_cover_of(
                p1.1,
                cv.0@,
                cv.1@,
            ) == Some((true, b@))))))
            &&& (r matches Err(MuxError::MetadataRewriteFailed(_)) ==> (flac_tagged_of(
                flac@,
                pairs,
            ) is None || (cover matches Some(cv) && flac_tagged_of(flac@, pairs) matches Some(p1)
                && flac_with_cover_of(p1.1, cv.0@, cv.1@) is None)))
        }),
{
    let mut tags = cuesheet_tag_pairs(cuesheets);
    let mut field_tags = playlist_tag_pairs(playlist);
    tags.append(&mut field_tags);
    proof {
        assert forall|i: int| 0 <= i < pairs_view(tags@).len() implies pairs_view(tags@)[i]
            == all_tag_pairs(cuesheets@, *playlist)[i] by {
            if i < cuesheets@.len() {
            } else {
            }
        }
        assert(pairs_view(tags@) =~= all_tag_pairs(cuesheets@, *playlist));
    }
    let mut i: usize = 0;
    while i < tags.len()
        invariant
            i <= tags@.len(),
            forall|j: int| 0 <= j < i ==> !(#[trigger] tags@[j]).0@.contains('='),
        decreases tags@.len() - i,
    {
        let key_chars = str_chars(tags[i].0.as_str());
        match find_char(&key_chars, 0, '=') {
            Some(p) => {
                proof {
                    lemma_find_char_bounds(tags@[i as int].0@, 0, '=', p as int);
                }
                return Err(MuxError::InvalidTagKey(tags[i].0.clone()));
            },
            None => {
                proof {
                    lemma_find_char_none(tags@[i as int].0@, 0, '=');
                }
            },
        }
        i = i + 1;
    }
    let tagged = match flac_add_tags(flac, &tags) {
        Ok(v) => v,
        Err(e) => {
            return Err(MuxError::MetadataRewriteFailed(e));
        },
    };
    match cover {
        None => {
            if tagged.0 {
                Ok(RewriteOutcome::Rebuilt(tagged.1))
            } else {
                Ok(RewriteOutcome::InPlace(tagged.1))
            }
        },
        Some((media_type, data)) => {
            match flac_add_front_cover(tagged.1, media_type, data) {
                Ok(v) => {
                    if v.0 {
                        Ok(RewriteOutcome::Rebuilt(v.1))
                    } else {
                        Ok(RewriteOutcome::InPlace(v.1))
                    }
                },
                Err(e) => Err(MuxError::MetadataRewriteFailed(e)),
            }
        },
    }
}

} // verus!
