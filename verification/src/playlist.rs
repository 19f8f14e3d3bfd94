//! Playlist data model and validation.
//!
//! A playlist declares passthrough tag fields, a set of tracks (each with an
//! optional unique alias), named pauses, and an ordered content program whose
//! entries reference tracks by path or alias, pause signatures, or the
//! placeholder `_`. Validation checks all references before any file is
//! decoded; the set of paths known to exist is passed in by the caller.

use vstd::prelude::*;

use crate::strutil::{chars_eq_str, has_prefix, str_chars, string_eq};

verus! {

use vstd::string::StringSliceAdditionalSpecFns;

/// One source track: a file path, a display title, and an optional alias.
#[allow(non_snake_case)]
#[derive(Debug, Clone)]
pub struct Track {
    pub File: String,
    pub Title: String,
    pub Alias: Option<String>,
}

/// A named pause: a signature such as `pause_500ms` paired with a title.
#[allow(non_snake_case)]
#[derive(Debug, Clone)]
pub struct Pause {
    pub Signature: String,
    pub Title: String,
}

/// One entry of the content program: a single reference, or one reference per
/// output channel.
#[derive(Debug, Clone)]
pub enum ContentItem {
    Scalar(Option<String>),
    List(Vec<Option<String>>),
}

/// A declarative playlist: passthrough tag fields, an optional album cover
/// reference, an optional random seed, tracks, pauses, and content.
#[allow(non_snake_case)]
#[derive(Debug, Clone)]
pub struct Playlist {
    pub AcoustidFingerprint: Option<String>,
    pub AcoustidId: Option<String>,
    pub Album: Option<String>,
    pub AlbumArtist: Option<String>,
    pub Arranger: Option<String>,
    pub Artist: Option<String>,
    pub Bpm: Option<u32>,
    pub Comment: Option<String>,
    pub Compilation: Option<String>,
    pub Composer: Option<String>,
    pub Conductor: Option<String>,
    pub ContentGroup: Option<String>,
    pub Copyright: Option<String>,
    pub Date: Option<String>,
    pub Description: Option<String>,
    pub DiscNumber: Option<u32>,
    pub DiscSubtitle: Option<String>,
    pub DiscTotal: Option<u32>,
    pub EncodedBy: Option<String>,
    pub Encoder: Option<String>,
    pub EncoderSettings: Option<String>,
    pub EncodingDate: Option<String>,
    pub Engineer: Option<String>,
    pub Ensemble: Option<String>,
    pub Genre: Option<String>,
    pub IdentAsin: Option<String>,
    pub IdentBarcode: Option<String>,
    pub IdentCatalogNumber: Option<String>,
    pub IdentEanUpn: Option<String>,
    pub IdentIsrc: Option<String>,
    pub IdentPn: Option<String>,
    pub IdentPodcast: Option<String>,
    pub IdentUpc: Option<String>,
    pub Label: Option<String>,
    pub Language: Option<String>,
    pub License: Option<String>,
    pub Lyricist: Option<String>,
    pub Lyrics: Option<String>,
    pub MediaFormat: Option<String>,
    pub MixDj: Option<String>,
    pub MixEngineer: Option<String>,
    pub Mood: Option<String>,
    pub MovementName: Option<String>,
    pub MovementNumber: Option<u32>,
    pub MusicBrainzAlbumArtistId: Option<String>,
    pub MusicBrainzAlbumId: Option<String>,
    pub MusicBrainzArtistId: Option<String>,
    pub MusicBrainzDiscId: Option<String>,
    pub MusicBrainzGenreId: Option<String>,
    pub MusicBrainzLabelId: Option<String>,
    pub MusicBrainzOriginalAlbumId: Option<String>,
    pub MusicBrainzOriginalArtistId: Option<String>,
    pub MusicBrainzRecordingId: Option<String>,
    pub MusicBrainzReleaseGroupId: Option<String>,
    pub MusicBrainzReleaseStatus: Option<String>,
    pub MusicBrainzReleaseTrackId: Option<String>,
    pub MusicBrainzReleaseType: Option<String>,
    pub MusicBrainzTrackId: Option<String>,
    pub MusicBrainzWorkId: Option<String>,
    pub Opus: Option<String>,
    pub OriginalAlbum: Option<String>,
    pub OriginalArtist: Option<String>,
    pub OriginalDate: Option<String>,
    pub OriginalFile: Option<String>,
    pub OriginalWriter: Option<String>,
    pub Owner: Option<String>,
    pub Part: Option<u32>,
    pub PartTotal: Option<u32>,
    pub Performer: Option<String>,
    pub Podcast: Option<String>,
    pub PodcastCategory: Option<String>,
    pub PodcastDescription: Option<String>,
    pub PodcastKeywords: Option<String>,
    pub Producer: Option<String>,
    pub PurchaseDate: Option<String>,
    pub Rating: Option<u32>,
    pub ReleaseCountry: Option<String>,
    pub ReleaseDate: Option<String>,
    pub Remixer: Option<String>,
    pub ReplayGainAlbumGain: Option<String>,
    pub ReplayGainAlbumPeak: Option<String>,
    pub ReplayGainTrackGain: Option<String>,
    pub ReplayGainTrackPeak: Option<String>,
    pub Script: Option<String>,
    pub SortAlbum: Option<String>,
    pub SortAlbumArtist: Option<String>,
    pub SortArtist: Option<String>,
    pub SortComposer: Option<String>,
    pub SortTrackTitle: Option<String>,
    pub TaggingDate: Option<String>,
    pub TrackNumber: Option<u32>,
    pub TrackSubtitle: Option<String>,
    pub TrackTitle: Option<String>,
    pub TrackTotal: Option<u32>,
    pub TvEpisode: Option<u32>,
    pub TvEpisodeTitle: Option<String>,
    pub TvNetwork: Option<String>,
    pub TvSeason: Option<u32>,
    pub TvShowTitle: Option<String>,
    pub Url: Option<String>,
    pub UrlArtist: Option<String>,
    pub UrlCopyright: Option<String>,
    pub UrlInternetRadio: Option<String>,
    pub UrlLabel: Option<String>,
    pub UrlOfficial: Option<String>,
    pub UrlPayment: Option<String>,
    pub UrlPodcast: Option<String>,
    pub UrlPurchase: Option<String>,
    pub UrlSource: Option<String>,
    pub Version: Option<String>,
    pub Writer: Option<String>,
    pub AlbumCover: Option<String>,
    pub RandSeed: Option<String>,
    pub Tracks: Option<Vec<Track>>,
    pub Pauses: Option<Vec<Pause>>,
    pub Content: Option<Vec<ContentItem>>,
}


impl Default for Playlist {
    /// A playlist with nothing declared.
    fn default() -> (r: Playlist)
        ensures
            r.AcoustidFingerprint is None && r.AcoustidId is None && r.Album is None && r.AlbumArtist
                is None && r.Arranger is None && r.Artist is None && r.Bpm is None && r.Comment is None &&
                r.Compilation is None && r.Composer is None && r.Conductor is None && r.ContentGroup is
                None && r.Copyright is None && r.Date is None && r.Description is None && r.DiscNumber is
                None && r.DiscSubtitle is None && r.DiscTotal is None && r.EncodedBy is None && r.Encoder
                is None && r.EncoderSettings is None && r.EncodingDate is None && r.Engineer is None &&
                r.Ensemble is None && r.Genre is None && r.IdentAsin is None && r.IdentBarcode is None &&
                r.IdentCatalogNumber is None && r.IdentEanUpn is None && r.IdentIsrc is None && r.IdentPn
                is None && r.IdentPodcast is None && r.IdentUpc is None && r.Label is None && r.Language
                is None && r.License is None && r.Lyricist is None && r.Lyrics is None && r.MediaFormat is
                None && r.MixDj is None && r.MixEngineer is None && r.Mood is None && r.MovementName is
                None && r.MovementNumber is None && r.MusicBrainzAlbumArtistId is None &&
                r.MusicBrainzAlbumId is None && r.MusicBrainzArtistId is None && r.MusicBrainzDiscId is
                None && r.MusicBrainzGenreId is None && r.MusicBrainzLabelId is None &&
                r.MusicBrainzOriginalAlbumId is None && r.MusicBrainzOriginalArtistId is None &&
                r.MusicBrainzRecordingId is None && r.MusicBrainzReleaseGroupId is None &&
                r.MusicBrainzReleaseStatus is None && r.MusicBrainzReleaseTrackId is None &&
                r.MusicBrainzReleaseType is None && r.MusicBrainzTrackId is None && r.MusicBrainzWorkId is
                None && r.Opus is None && r.OriginalAlbum is None && r.OriginalArtist is None &&
                r.OriginalDate is None && r.OriginalFile is None && r.OriginalWriter is None && r.Owner is
                None && r.Part is None && r.PartTotal is None && r.Performer is None && r.Podcast is None
                && r.PodcastCategory is None && r.PodcastDescription is None && r.PodcastKeywords is None
                && r.Producer is None && r.PurchaseDate is None && r.Rating is None && r.ReleaseCountry is
                None && r.ReleaseDate is None && r.Remixer is None && r.ReplayGainAlbumGain is None &&
                r.ReplayGainAlbumPeak is None && r.ReplayGainTrackGain is None && r.ReplayGainTrackPeak is
                None && r.Script is None && r.SortAlbum is None && r.SortAlbumArtist is None &&
                r.SortArtist is None && r.SortComposer is None && r.SortTrackTitle is None &&
                r.TaggingDate is None && r.TrackNumber is None && r.TrackSubtitle is None && r.TrackTitle
                is None && r.TrackTotal is None && r.TvEpisode is None && r.TvEpisodeTitle is None &&
                r.TvNetwork is None && r.TvSeason is None && r.TvShowTitle is None && r.Url is None &&
                r.UrlArtist is None && r.UrlCopyright is None && r.UrlInternetRadio is None && r.UrlLabel
                is None && r.UrlOfficial is None && r.UrlPayment is None && r.UrlPodcast is None &&
                r.UrlPurchase is None && r.UrlSource is None && r.Version is None && r.Writer is None &&
                r.AlbumCover is None && r.RandSeed is None && r.Tracks is None && r.Pauses is None &&
                r.Content is None,
    {
        Playlist {
            AcoustidFingerprint: None,
            AcoustidId: None,
            Album: None,
            AlbumArtist: None,
            Arranger: None,
            Artist: None,
            Bpm: None,
            Comment: None,
            Compilation: None,
            Composer: None,
            Conductor: None,
            ContentGroup: None,
            Copyright: None,
            Date: None,
            Description: None,
            DiscNumber: None,
            DiscSubtitle: None,
            DiscTotal: None,
            EncodedBy: None,
            Encoder: None,
            EncoderSettings: None,
            EncodingDate: None,
            Engineer: None,
            Ensemble: None,
            Genre: None,
            IdentAsin: None,
            IdentBarcode: None,
            IdentCatalogNumber: None,
            IdentEanUpn: None,
            IdentIsrc: None,
            IdentPn: None,
            IdentPodcast: None,
            IdentUpc: None,
            Label: None,
            Language: None,
            License: None,
            Lyricist: None,
            Lyrics: None,
            MediaFormat: None,
            MixDj: None,
            MixEngineer: None,
            Mood: None,
            MovementName: None,
            MovementNumber: None,
            MusicBrainzAlbumArtistId: None,
            MusicBrainzAlbumId: None,
            MusicBrainzArtistId: None,
            MusicBrainzDiscId: None,
            MusicBrainzGenreId: None,
            MusicBrainzLabelId: None,
            MusicBrainzOriginalAlbumId: None,
            MusicBrainzOriginalArtistId: None,
            MusicBrainzRecordingId: None,
            MusicBrainzReleaseGroupId: None,
            MusicBrainzReleaseStatus: None,
            MusicBrainzReleaseTrackId: None,
            MusicBrainzReleaseType: None,
            MusicBrainzTrackId: None,
            MusicBrainzWorkId: None,
            Opus: None,
            OriginalAlbum: None,
            OriginalArtist: None,
            OriginalDate: None,
            OriginalFile: None,
            OriginalWriter: None,
            Owner: None,
            Part: None,
            PartTotal: None,
            Performer: None,
            Podcast: None,
            PodcastCategory: None,
            PodcastDescription: None,
            PodcastKeywords: None,
            Producer: None,
            PurchaseDate: None,
            Rating: None,
            ReleaseCountry: None,
            ReleaseDate: None,
            Remixer: None,
            ReplayGainAlbumGain: None,
            ReplayGainAlbumPeak: None,
            ReplayGainTrackGain: None,
            ReplayGainTrackPeak: None,
            Script: None,
            SortAlbum: None,
            SortAlbumArtist: None,
            SortArtist: None,
            SortComposer: None,
            SortTrackTitle: None,
            TaggingDate: None,
            TrackNumber: None,
            TrackSubtitle: None,
            TrackTitle: None,
            TrackTotal: None,
            TvEpisode: None,
            TvEpisodeTitle: None,
            TvNetwork: None,
            TvSeason: None,
            TvShowTitle: None,
            Url: None,
            UrlArtist: None,
            UrlCopyright: None,
            UrlInternetRadio: None,
            UrlLabel: None,
            UrlOfficial: None,
            UrlPayment: None,
            UrlPodcast: None,
            UrlPurchase: None,
            UrlSource: None,
            Version: None,
            Writer: None,
            AlbumCover: None,
            RandSeed: None,
            Tracks: None,
            Pauses: None,
            Content: None,
        }
    }
}

/// The tracks of a playlist, or the empty sequence if none are declared.
pub open spec fn playlist_tracks(p: Playlist) -> Seq<Track> {
    match p.Tracks {
        Some(ts) => ts@,
        None => Seq::empty(),
    }
}

/// The content entries of a playlist, or the empty sequence if none.
pub open spec fn playlist_content(p: Playlist) -> Seq<ContentItem> {
    match p.Content {
        Some(c) => c@,
        None => Seq::empty(),
    }
}

/// A reference of the form `pause_...`.
pub open spec fn is_pause_sig(s: Seq<char>) -> bool {
    s.len() >= 6 && s.subrange(0, 6) == seq!['p', 'a', 'u', 's', 'e', '_']
}

/// The placeholder reference `_`.
pub open spec fn is_placeholder(s: Seq<char>) -> bool {
    s == seq!['_']
}

/// Some string in `paths` has exactly the characters `p`.
pub open spec fn paths_contain(paths: Seq<String>, p: Seq<char>) -> bool {
    exists|i: int| 0 <= i < paths.len() && #[trigger] paths[i]@ == p
}

/// Some track declares `name` as its alias.
pub open spec fn has_alias(tracks: Seq<Track>, name: Seq<char>) -> bool {
    exists|i: int|
        0 <= i < tracks.len() && ((#[trigger] tracks[i].Alias) matches Some(a) && a@ == name)
}

/// A content reference is acceptable: a pause signature, the placeholder, an
/// existing path, or a declared alias.
pub open spec fn valid_ref(tracks: Seq<Track>, existing: Seq<String>, r: Seq<char>) -> bool {
    ||| is_pause_sig(r)
    ||| is_placeholder(r)
    ||| paths_contain(existing, r)
    ||| has_alias(tracks, r)
}

/// Every populated reference of the entry is acceptable.
pub open spec fn item_valid(tracks: Seq<Track>, existing: Seq<String>, item: ContentItem) -> bool {
    match item {
        ContentItem::Scalar(Some(v)) => valid_ref(tracks, existing, v@),
        ContentItem::Scalar(None) => true,
        ContentItem::List(items) => forall|i: int|
            0 <= i < items.len() ==> ((#[trigger] items[i]) matches Some(v) ==> valid_ref(
                tracks,
                existing,
                v@,
            )),
    }
}

/// Every declared track file is among the existing paths.
pub open spec fn tracks_exist(tracks: Seq<Track>, existing: Seq<String>) -> bool {
    forall|i: int| 0 <= i < tracks.len() ==> paths_contain(existing, (#[trigger] tracks[i]).File@)
}

/// No two tracks declare the same alias.
pub open spec fn aliases_unique(tracks: Seq<Track>) -> bool {
    forall|i: int, j: int|
        0 <= i < j < tracks.len() ==> !((#[trigger] tracks[i].Alias) matches Some(a)
            && (#[trigger] tracks[j].Alias) matches Some(b) && a@ == b@)
}

/// The whole playlist validates against the given set of existing paths.
pub open spec fn playlist_valid(p: Playlist, existing: Seq<String>) -> bool {
    &&& tracks_exist(playlist_tracks(p), existing)
    &&& aliases_unique(playlist_tracks(p))
    &&& forall|i: int|
        0 <= i < playlist_content(p).len() ==> item_valid(
            playlist_tracks(p),
            existing,
            #[trigger] playlist_content(p)[i],
        )
}

/// Why a playlist failed validation, carrying the offending value.
#[derive(Debug, Clone)]
pub enum PlaylistError {
    MissingTrackFile(String),
    DuplicateAlias(String),
    UnresolvedReference(String),
    UnresolvedListReference(String),
}

/// True when the characters of `v` form a pause signature.
pub fn ref_is_pause(v: &Vec<char>) -> (r: bool)
    ensures
        r == is_pause_sig(v@),
{
    proof {
        reveal_strlit("pause_");
        assert("pause_"@ =~= seq!['p', 'a', 'u', 's', 'e', '_']);
    }
    has_prefix(v, "pause_")
}

/// True when the characters of `v` are exactly the placeholder `_`.
pub fn ref_is_placeholder(v: &Vec<char>) -> (r: bool)
    ensures
        r == is_placeholder(v@),
{
    proof {
        reveal_strlit("_");
        assert("_"@ =~= seq!['_']);
    }
    chars_eq_str(v, "_")
}

/// True when some string of `paths` equals `p`.
pub fn paths_contain_exec(paths: &Vec<String>, p: &String) -> (r: bool)
    ensures
        r == paths_contain(paths@, p@),
{
    let mut i: usize = 0;
    while i < paths.len()
        invariant
            i <= paths@.len(),
            forall|j: int| 0 <= j < i ==> #[trigger] paths@[j]@ != p@,
        decreases paths@.len() - i,
    {
        if string_eq(&paths[i], p) {
            return true;
        }
        i = i + 1;
    }
    false
}

/// True when some track of `tracks` declares alias `name`.
pub fn tracks_have_alias(tracks: &Vec<Track>, name: &String) -> (r: bool)
    ensures
        r == has_alias(tracks@, name@),
{
    let mut i: usize = 0;
    while i < tracks.len()
        invariant
            i <= tracks@.len(),
            forall|j: int|
                0 <= j < i ==> !((#[trigger] tracks@[j].Alias) matches Some(a) && a@ == name@),
        decreases tracks@.len() - i,
    {
        match &tracks[i].Alias {
            Some(a) => {
                if string_eq(a, name) {
                    return true;
                }
            },
            None => {},
        }
        i = i + 1;
    }
    false
}

fn check_ref(tracks: &Vec<Track>, existing: &Vec<String>, v: &String) -> (r: bool)
    ensures
        r == valid_ref(tracks@, existing@, v@),
{
    let cs = str_chars(v.as_str());
    if ref_is_pause(&cs) || ref_is_placeholder(&cs) {
        return true;
    }
    paths_contain_exec(existing, v) || tracks_have_alias(tracks, v)
}

/// Validates the playlist's tracks and content against the paths in
/// `existing`, which the caller has checked to exist on disk. In order:
/// every declared track file must exist; every declared alias must be
/// unique; every populated content reference must be a pause signature,
/// the placeholder, an existing path, or a declared alias. No file is
/// decoded here; validation is complete before any loading begins.
pub fn ensure_tracks(playlist: &Playlist, existing: &Vec<String>) -> (r: Result<(), PlaylistError>)
    ensures
        r is Ok <==> playlist_valid(*playlist, existing@),
        r matches Err(PlaylistError::MissingTrackFile(f)) ==> exists|i: int|
            0 <= i < playlist_tracks(*playlist).len() && (#[trigger] playlist_tracks(
                *playlist,
            )[i]).File@ == f@ && !paths_contain(existing@, f@),
        r matches Err(PlaylistError::DuplicateAlias(a)) ==> !aliases_unique(
            playlist_tracks(*playlist),
        ) && has_alias(playlist_tracks(*playlist), a@) && tracks_exist(
            playlist_tracks(*playlist),
            existing@,
        ),
        (r matches Err(PlaylistError::UnresolvedReference(_)) || r matches Err(
            PlaylistError::UnresolvedListReference(_),
        )) ==> tracks_exist(playlist_tracks(*playlist), existing@) && aliases_unique(
            playlist_tracks(*playlist),
        ),
        r matches Err(PlaylistError::UnresolvedReference(s)) ==> !valid_ref(
            playlist_tracks(*playlist),
            existing@,
            s@,
        ),
        r matches Err(PlaylistError::UnresolvedListReference(s)) ==> !valid_ref(
            playlist_tracks(*playlist),
            existing@,
            s@,
        ),
{
    let empty_tracks: Vec<Track> = Vec::new();
    let tracks: &Vec<Track> = match &playlist.Tracks {
        Some(ts) => ts,
        None => &empty_tracks,
    };
    proof {
        assert(tracks@ == playlist_tracks(*playlist));
    }
    let mut i: usize = 0;
    while i < tracks.len()
        invariant
            tracks@ == playlist_tracks(*playlist),
            i <= tracks@.len(),
            forall|j: int| 0 <= j < i ==> paths_contain(existing@, (#[trigger] tracks@[j]).File@),
        decreases tracks@.len() - i,
    {
        if !paths_contain_exec(existing, &tracks[i].File) {
            return Err(PlaylistError::MissingTrackFile(tracks[i].File.clone()));
        }
        i = i + 1;
    }
    let mut i: usize = 0;
    while i < tracks.len()
        invariant
            tracks@ == playlist_tracks(*playlist),
            i <= tracks@.len(),
            tracks_exist(tracks@, existing@),
            forall|a: int, b: int|
                0 <= a < b < i ==> !((#[trigger] tracks@[a].Alias) matches Some(x)
                    && (#[trigger] tracks@[b].Alias) matches Some(y) && x@ == y@),
        decreases tracks@.len() - i,
    {
        match &tracks[i].Alias {
            Some(alias) => {
                let mut j: usize = 0;
                while j < i
                    invariant
                        tracks@ == playlist_tracks(*playlist),
                        tracks_exist(tracks@, existing@),
                        j <= i < tracks@.len(),
                        tracks@[i as int].Alias matches Some(x) && x@ == alias@,
                        forall|b: int|
                            0 <= b < j ==> !((#[trigger] tracks@[b].Alias) matches Some(y) && y@
                                == alias@),
                    decreases i - j,
                {
                    match &tracks[j].Alias {
                        Some(other) => {
                            if string_eq(other, alias) {
                                proof {
                                    assert(0 <= j < i < tracks@.len());
                                    assert((tracks@[j as int].Alias matches Some(y) && y@
                                        == alias@));
                                    assert((tracks@[i as int].Alias matches Some(x) && x@
                                        == alias@));
                                    assert(!aliases_unique(tracks@));
                                    assert(has_alias(tracks@, alias@));
                                }
                                return Err(PlaylistError::DuplicateAlias(alias.clone()));
                            }
                        },
                        None => {},
                    }
                    j = j + 1;
                }
            },
            None => {},
        }
        i = i + 1;
    }
    proof {
        assert(aliases_unique(tracks@));
    }
    let empty_content: Vec<ContentItem> = Vec::new();
    let content: &Vec<ContentItem> = match &playlist.Content {
        Some(c) => c,
        None => &empty_content,
    };
    proof {
        assert(content@ == playlist_content(*playlist));
    }
    let mut i: usize = 0;
    while i < content.len()
        invariant
            tracks@ == playlist_tracks(*playlist),
            content@ == playlist_content(*playlist),
            i <= content@.len(),
            tracks_exist(tracks@, existing@),
            aliases_unique(tracks@),
            forall|j: int| 0 <= j < i ==> item_valid(tracks@, existing@, #[trigger] content@[j]),
        decreases content@.len() - i,
    {
        match &content[i] {
            ContentItem::Scalar(Some(v)) => {
                if !check_ref(tracks, existing, v) {
                    proof {
                        assert(!item_valid(tracks@, existing@, content@[i as int]));
                        assert(!playlist_valid(*playlist, existing@));
                    }
                    return Err(PlaylistError::UnresolvedReference(v.clone()));
                }
            },
            ContentItem::Scalar(None) => {},
            ContentItem::List(items) => {
                let mut k: usize = 0;
                while k < items.len()
                    invariant
                        tracks@ == playlist_tracks(*playlist),
                        content@ == playlist_content(*playlist),
                        tracks_exist(tracks@, existing@),
                        aliases_unique(tracks@),
                        k <= items@.len(),
                        0 <= i < content@.len(),
                        content@[i as int] matches ContentItem::List(its) && its@ == items@,
                        forall|m: int|
                            0 <= m < k ==> ((#[trigger] items@[m]) matches Some(v) ==> valid_ref(
                                tracks@,
                                existing@,
                                v@,
                            )),
                    decreases items@.len() - k,
                {
                    match &items[k] {
                        Some(v) => {
                            if !check_ref(tracks, existing, v) {
                                proof {
                                    assert((items@[k as int] matches Some(x) && !valid_ref(
                                        tracks@,
                                        existing@,
                                        x@,
                                    )));
                                    assert(!item_valid(tracks@, existing@, content@[i as int]));
                                    assert(!playlist_valid(*playlist, existing@));
                                }
                                return Err(PlaylistError::UnresolvedListReference(v.clone()));
                            }
                        },
                        None => {},
                    }
                    k = k + 1;
                }
            },
        }
        i = i + 1;
    }
    Ok(())
}


/// An entry survives preprocessing: a scalar that is non-empty and not the
/// placeholder, or a list with at least one such populated slot.
pub open spec fn entry_kept(item: ContentItem) -> bool {
    match item {
        ContentItem::Scalar(ov) => ov matches Some(v) && v@.len() > 0 && !is_placeholder(v@),
        ContentItem::List(items) => exists|i: int|
            0 <= i < items@.len() && ((#[trigger] items@[i]) matches Some(v) && v@.len() > 0
                && !is_placeholder(v@)),
    }
}

/// The predicate used to filter content entries during preprocessing.
pub open spec fn kept_pred() -> spec_fn(ContentItem) -> bool {
    |e: ContentItem| entry_kept(e)
}

/// The file of the last track declaring alias `name` (aliases are unique in a
/// validated playlist, so the choice does not matter there).
pub open spec fn alias_file(tracks: Seq<Track>, name: Seq<char>) -> Seq<char>
    decreases tracks.len(),
{
    if tracks.len() == 0 {
        name
    } else if tracks.last().Alias matches Some(a) && a@ == name {
        tracks.last().File@
    } else {
        alias_file(tracks.drop_last(), name)
    }
}

/// A reference after alias resolution: the aliased track's file, or the
/// reference itself if it is not an alias.
pub open spec fn resolve_ref(tracks: Seq<Track>, v: Seq<char>) -> Seq<char> {
    if has_alias(tracks, v) {
        alias_file(tracks, v)
    } else {
        v
    }
}

/// `after` is `before` with every populated reference alias-resolved.
pub open spec fn resolved_of(tracks: Seq<Track>, before: ContentItem, after: ContentItem) -> bool {
    match (before, after) {
        (ContentItem::Scalar(Some(v)), ContentItem::Scalar(Some(w))) => w@ == resolve_ref(
            tracks,
            v@,
        ),
        (ContentItem::Scalar(None), ContentItem::Scalar(None)) => true,
        (ContentItem::List(vs), ContentItem::List(ws)) => {
            &&& vs@.len() == ws@.len()
            &&& forall|k: int|
                0 <= k < vs@.len() ==> match (#[trigger] vs@[k], ws@[k]) {
                    (Some(v), Some(w)) => w@ == resolve_ref(tracks, v@),
                    (None, None) => true,
                    _ => false,
                }
        },
        _ => false,
    }
}

/// A reference that preprocessing gathers into the load set: not an alias,
/// not a pause signature, not the placeholder.
pub open spec fn collects(tracks: Seq<Track>, v: Seq<char>) -> bool {
    !has_alias(tracks, v) && !is_pause_sig(v) && !is_placeholder(v)
}

/// Some populated slot of the entry gathers `p` into the load set.
pub open spec fn item_collects(tracks: Seq<Track>, item: ContentItem, p: Seq<char>) -> bool {
    match item {
        ContentItem::Scalar(Some(v)) => v@ == p && collects(tracks, v@),
        ContentItem::Scalar(None) => false,
        ContentItem::List(items) => exists|k: int|
            0 <= k < items@.len() && ((#[trigger] items@[k]) matches Some(v) && v@ == p && collects(
                tracks,
                v@,
            )),
    }
}

/// Some kept content entry gathers `p` into the load set.
pub open spec fn content_collects(
    tracks: Seq<Track>,
    content: Seq<ContentItem>,
    p: Seq<char>,
) -> bool {
    exists|i: int|
        0 <= i < content.len() && entry_kept(#[trigger] content[i]) && item_collects(
            tracks,
            content[i],
            p,
        )
}

/// Some track's file path is `p`.
pub open spec fn track_file(tracks: Seq<Track>, p: Seq<char>) -> bool {
    exists|i: int| 0 <= i < tracks.len() && (#[trigger] tracks[i]).File@ == p
}

/// Looks up the file of the last track declaring alias `name`.
pub fn lookup_alias(tracks: &Vec<Track>, name: &String) -> (r: Option<String>)
    ensures
        match r {
            Some(f) => has_alias(tracks@, name@) && f@ == alias_file(tracks@, name@),
            None => !has_alias(tracks@, name@),
        },
{
    let mut i: usize = tracks.len();
    proof {
        assert(tracks@.subrange(0, i as int) =~= tracks@);
    }
    while i > 0
        invariant
            i <= tracks@.len(),
            alias_file(tracks@, name@) == alias_file(tracks@.subrange(0, i as int), name@),
            has_alias(tracks@, name@) == has_alias(tracks@.subrange(0, i as int), name@),
        decreases i,
    {
        i = i - 1;
        let ghost pre = tracks@.subrange(0, i + 1 as int);
        proof {
            assert(pre.drop_last() =~= tracks@.subrange(0, i as int));
            assert(pre.last() == tracks@[i as int]);
        }
        match &tracks[i].Alias {
            Some(a) => {
                if string_eq(a, name) {
                    proof {
                        assert(has_alias(pre, name@));
                    }
                    return Some(tracks[i].File.clone());
                }
            },
            None => {},
        }
        proof {
            if has_alias(tracks@.subrange(0, i as int), name@) {
                let w = choose|j: int|
                    0 <= j < i && ((#[trigger] tracks@.subrange(0, i as int)[j].Alias) matches Some(
                        a,
                    ) && a@ == name@);
                assert((pre[w].Alias matches Some(a) && a@ == name@));
                assert(has_alias(pre, name@));
            }
            if has_alias(pre, name@) {
                let w = choose|j: int|
                    0 <= j <= i && ((#[trigger] pre[j].Alias) matches Some(a) && a@ == name@);
                assert(w < i);
                assert((tracks@.subrange(0, i as int)[w].Alias matches Some(a) && a@ == name@));
            }
        }
    }
    proof {
        assert(tracks@.subrange(0, 0) =~= Seq::<Track>::empty());
    }
    None
}

fn push_unique(unique: &mut Vec<String>, s: &String)
    requires
        forall|a: int, b: int| 0 <= a < b < old(unique)@.len() ==> old(unique)@[a]@ != old(unique)@[b]@,
    ensures
        forall|a: int, b: int| 0 <= a < b < final(unique)@.len() ==> final(unique)@[a]@ != final(unique)@[b]@,
        forall|p: Seq<char>|
            #[trigger] paths_contain(final(unique)@, p) <==> (paths_contain(old(unique)@, p) || p
                == s@),
{
    if !paths_contain_exec(unique, s) {
        let ghost before = unique@;
        unique.push(s.clone());
        proof {
            assert forall|p: Seq<char>| #[trigger]
                paths_contain(unique@, p) <==> (paths_contain(before, p) || p == s@) by {
                if paths_contain(unique@, p) {
                    let w = choose|i: int| 0 <= i < unique@.len() && #[trigger] unique@[i]@ == p;
                    if w < before.len() {
                        assert(paths_contain(before, p));
                    }
                }
                if paths_contain(before, p) {
                    let w = choose|i: int| 0 <= i < before.len() && #[trigger] before[i]@ == p;
                    assert(unique@[w]@ == p);
                }
                if p == s@ {
                    assert(unique@[before.len() as int]@ == p);
                }
            }
        }
    } else {
        proof {
            assert forall|p: Seq<char>| #[trigger]
                paths_contain(unique@, p) <==> (paths_contain(unique@, p) || p == s@) by {
                if p == s@ {
                    assert(paths_contain(unique@, p));
                }
            }
        }
    }
}

proof fn lemma_filter_step(s: Seq<ContentItem>, i: int)
    requires
        0 <= i < s.len(),
    ensures
        s.subrange(0, i + 1).filter(kept_pred()) == if entry_kept(s[i]) {
            s.subrange(0, i).filter(kept_pred()).push(s[i])
        } else {
            s.subrange(0, i).filter(kept_pred())
        },
{
    reveal(Seq::filter);
    let pre = s.subrange(0, i + 1);
    assert(pre.drop_last() =~= s.subrange(0, i));
    assert(pre.last() == s[i]);
}


proof fn lemma_collects_step(tracks: Seq<Track>, content: Seq<ContentItem>, i: int, p: Seq<char>)
    requires
        0 <= i < content.len(),
    ensures
        content_collects(tracks, content.subrange(0, i + 1), p) <==> (content_collects(
            tracks,
            content.subrange(0, i),
            p,
        ) || (entry_kept(content[i]) && item_collects(tracks, content[i], p))),
{
    let pre = content.subrange(0, i + 1);
    let cur = content.subrange(0, i);
    if content_collects(tracks, pre, p) {
        let w = choose|j: int|
            0 <= j < pre.len() && entry_kept(#[trigger] pre[j]) && item_collects(tracks, pre[j], p);
        if w < i {
            assert(cur[w] == pre[w]);
            assert(content_collects(tracks, cur, p));
        } else {
            assert(pre[w] == content[i]);
        }
    }
    if content_collects(tracks, cur, p) {
        let w = choose|j: int|
            0 <= j < cur.len() && entry_kept(#[trigger] cur[j]) && item_collects(tracks, cur[j], p);
        assert(pre[w] == cur[w]);
        assert(content_collects(tracks, pre, p));
    }
    if entry_kept(content[i]) && item_collects(tracks, content[i], p) {
        assert(pre[i] == content[i]);
        assert(content_collects(tracks, pre, p));
    }
}

fn scalar_kept(v: &String) -> (r: bool)
    ensures
        r == (v@.len() > 0 && !is_placeholder(v@)),
{
    let cs = str_chars(v.as_str());
    cs.len() > 0 && !ref_is_placeholder(&cs)
}

fn list_entry_kept(items: &Vec<Option<String>>) -> (r: bool)
    ensures
        r == exists|i: int|
            0 <= i < items@.len() && ((#[trigger] items@[i]) matches Some(v) && v@.len() > 0
                && !is_placeholder(v@)),
{
    let mut i: usize = 0;
    while i < items.len()
        invariant
            i <= items@.len(),
            forall|j: int|
                0 <= j < i ==> !((#[trigger] items@[j]) matches Some(v) && v@.len() > 0
                    && !is_placeholder(v@)),
        decreases items@.len() - i,
    {
        match &items[i] {
            Some(v) => {
                if scalar_kept(v) {
                    return true;
                }
            },
            None => {},
        }
        i = i + 1;
    }
    false
}

/// Preprocesses the content program in place: drops entries that are entirely
/// empty or placeholders, resolves aliases to their tracks' file paths, and
/// returns the deduplicated set of concrete file paths to load (declared
/// track files plus direct path references from kept content entries).
pub fn preprocess_content(playlist: &mut Playlist) -> (unique: Vec<String>)
    ensures
        (*final(playlist) == (Playlist { Content: final(playlist).Content, ..*old(playlist) })),
        old(playlist).Content is None ==> final(playlist).Content is None && unique@.len() == 0,
        forall|a: int, b: int| 0 <= a < b < unique@.len() ==> unique@[a]@ != unique@[b]@,
        old(playlist).Content is Some ==> ({
            let tracks = playlist_tracks(*old(playlist));
            let kept = playlist_content(*old(playlist)).filter(kept_pred());
            &&& (final(playlist).Content matches Some(nc) && nc@.len() == kept.len() && (forall|
                i: int,
            |
                0 <= i < kept.len() ==> resolved_of(tracks, kept[i], #[trigger] nc@[i])))
            &&& (forall|p: Seq<char>|
                #[trigger] paths_contain(unique@, p) <==> (track_file(tracks, p)
                    || content_collects(tracks, playlist_content(*old(playlist)), p)))
        }),
{
    let content_opt = playlist.Content.take();
    let entries = match content_opt {
        None => {
            return Vec::new();
        },
        Some(es) => es,
    };
    let empty_tracks: Vec<Track> = Vec::new();
    let tracks: &Vec<Track> = match &playlist.Tracks {
        Some(ts) => ts,
        None => &empty_tracks,
    };
    proof {
        assert(tracks@ == playlist_tracks(*old(playlist)));
        assert(entries@ == playlist_content(*old(playlist)));
    }
    let mut unique: Vec<String> = Vec::new();
    let mut t: usize = 0;
    while t < tracks.len()
        invariant
            t <= tracks@.len(),
            forall|a: int, b: int| 0 <= a < b < unique@.len() ==> unique@[a]@ != unique@[b]@,
            forall|p: Seq<char>|
                #[trigger] paths_contain(unique@, p) <==> exists|j: int|
                    0 <= j < t && (#[trigger] tracks@[j]).File@ == p,
        decreases tracks@.len() - t,
    {
        let ghost before = unique@;
        push_unique(&mut unique, &tracks[t].File);
        proof {
            assert forall|p: Seq<char>| #[trigger]
                paths_contain(unique@, p) <==> exists|j: int|
                    0 <= j < t + 1 && (#[trigger] tracks@[j]).File@ == p by {
                if paths_contain(unique@, p) {
                    if paths_contain(before, p) {
                        let w = choose|j: int| 0 <= j < t && (#[trigger] tracks@[j]).File@ == p;
                        assert(tracks@[w].File@ == p);
                    } else {
                        assert(tracks@[t as int].File@ == p);
                    }
                }
                if exists|j: int| 0 <= j < t + 1 && (#[trigger] tracks@[j]).File@ == p {
                    let w = choose|j: int| 0 <= j < t + 1 && (#[trigger] tracks@[j]).File@ == p;
                    if w < t {
                        assert(paths_contain(before, p));
                    }
                }
            }
        }
        t = t + 1;
    }
    proof {
        assert forall|p: Seq<char>| #[trigger]
            paths_contain(unique@, p) <==> (track_file(tracks@, p) || content_collects(
                tracks@,
                entries@.subrange(0, 0),
                p,
            )) by {
            assert(entries@.subrange(0, 0).len() == 0);
        }
    }
    let mut out: Vec<ContentItem> = Vec::new();
    let mut i: usize = 0;
    while i < entries.len()
        invariant
            i <= entries@.len(),
            tracks@ == playlist_tracks(*old(playlist)),
            entries@ == playlist_content(*old(playlist)),
            forall|a: int, b: int| 0 <= a < b < unique@.len() ==> unique@[a]@ != unique@[b]@,
            out@.len() == entries@.subrange(0, i as int).filter(kept_pred()).len(),
            forall|j: int|
                0 <= j < out@.len() ==> resolved_of(
                    tracks@,
                    entries@.subrange(0, i as int).filter(kept_pred())[j],
                    #[trigger] out@[j],
                ),
            forall|p: Seq<char>|
                #[trigger] paths_contain(unique@, p) <==> (track_file(tracks@, p)
                    || content_collects(tracks@, entries@.subrange(0, i as int), p)),
        decreases entries@.len() - i,
    {
        let ghost pre_filter = entries@.subrange(0, i as int).filter(kept_pred());
        let ghost base = unique@;
        proof {
            lemma_filter_step(entries@, i as int);
        }
        match &entries[i] {
            ContentItem::Scalar(Some(v)) => {
                if scalar_kept(v) {
                    match lookup_alias(tracks, v) {
                        Some(f) => {
                            out.push(ContentItem::Scalar(Some(f)));
                        },
                        None => {
                            let cs = str_chars(v.as_str());
                            if !ref_is_pause(&cs) {
                                push_unique(&mut unique, v);
                                proof {
                                    assert(item_collects(tracks@, entries@[i as int], v@));
                                }
                            }
                            out.push(ContentItem::Scalar(Some(v.clone())));
                        },
                    }
                    proof {
                        assert(resolved_of(tracks@, entries@[i as int], out@.last()));
                    }
                }
            },
            ContentItem::Scalar(None) => {},
            ContentItem::List(items) => {
                if list_entry_kept(items) {
                    let mut new_items: Vec<Option<String>> = Vec::new();
                    let mut k: usize = 0;
                    while k < items.len()
                        invariant
                            k <= items@.len(),
                            new_items@.len() == k,
                            tracks@ == playlist_tracks(*old(playlist)),
                            entries@ == playlist_content(*old(playlist)),
                            0 <= i < entries@.len(),
                            entries@[i as int] matches ContentItem::List(its) && its@ == items@,
                            entry_kept(entries@[i as int]),
                            forall|a: int, b: int|
                                0 <= a < b < unique@.len() ==> unique@[a]@ != unique@[b]@,
                            forall|m: int|
                                0 <= m < k ==> match (#[trigger] items@[m], new_items@[m]) {
                                    (Some(v), Some(w)) => w@ == resolve_ref(tracks@, v@),
                                    (None, None) => true,
                                    _ => false,
                                },
                            forall|p: Seq<char>|
                                #[trigger] paths_contain(unique@, p) <==> (paths_contain(base, p)
                                    || exists|m: int|
                                    0 <= m < k && ((#[trigger] items@[m]) matches Some(v) && v@ == p
                                        && collects(tracks@, v@))),
                        decreases items@.len() - k,
                    {
                        let ghost ubase = unique@;
                        match &items[k] {
                            Some(v) => {
                                match lookup_alias(tracks, v) {
                                    Some(f) => {
                                        new_items.push(Some(f));
                                    },
                                    None => {
                                        let cs = str_chars(v.as_str());
                                        if !ref_is_pause(&cs) && !ref_is_placeholder(&cs) {
                                            push_unique(&mut unique, v);
                                        }
                                        new_items.push(Some(v.clone()));
                                    },
                                }
                            },
                            None => {
                                new_items.push(None);
                            },
                        }
                        proof {
                            assert forall|p: Seq<char>| #[trigger]
                                paths_contain(unique@, p) <==> (paths_contain(base, p) || exists|
                                m: int,
                            |
                                0 <= m < k + 1 && ((#[trigger] items@[m]) matches Some(v) && v@ == p
                                    && collects(tracks@, v@))) by {
                                if paths_contain(unique@, p) && !paths_contain(ubase, p) {
                                    assert((items@[k as int] matches Some(v) && v@ == p && collects(
                                        tracks@,
                                        v@,
                                    )));
                                }
                                if exists|m: int|
                                    0 <= m < k + 1 && ((#[trigger] items@[m]) matches Some(v) && v@
                                        == p && collects(tracks@, v@)) {
                                    let w = choose|m: int|
                                        0 <= m < k + 1 && ((#[trigger] items@[m]) matches Some(v)
                                            && v@ == p && collects(tracks@, v@));
                                    if w < k {
                                        assert(paths_contain(ubase, p));
                                        assert(paths_contain(unique@, p));
                                    } else {
                                        assert(paths_contain(unique@, p));
                                    }
                                }
                            }
                        }
                        k = k + 1;
                    }
                    out.push(ContentItem::List(new_items));
                    proof {
                        assert(resolved_of(tracks@, entries@[i as int], out@.last()));
                        assert forall|p: Seq<char>| #[trigger]
                            paths_contain(unique@, p) <==> (paths_contain(base, p) || item_collects(
                                tracks@,
                                entries@[i as int],
                                p,
                            )) by {}
                    }
                }
            },
        }
        proof {
            lemma_filter_step(entries@, i as int);
            let post_filter = entries@.subrange(0, i + 1 as int).filter(kept_pred());
            if entry_kept(entries@[i as int]) {
                assert(post_filter == pre_filter.push(entries@[i as int]));
                assert(out@.len() == post_filter.len());
                assert forall|j: int| 0 <= j < out@.len() implies resolved_of(
                    tracks@,
                    post_filter[j],
                    #[trigger] out@[j],
                ) by {
                    if j < pre_filter.len() {
                        assert(post_filter[j] == pre_filter[j]);
                    } else {
                        assert(post_filter[j] == entries@[i as int]);
                    }
                }
            } else {
                assert(post_filter == pre_filter);
            }
            assert forall|p: Seq<char>| #[trigger]
                paths_contain(unique@, p) <==> (track_file(tracks@, p) || content_collects(
                    tracks@,
                    entries@.subrange(0, i + 1 as int),
                    p,
                )) by {
                lemma_collects_step(tracks@, entries@, i as int, p);
            }
        }
        i = i + 1;
    }
    proof {
        assert(entries@.subrange(0, entries@.len() as int) =~= entries@);
    }
    playlist.Content = Some(out);
    unique
}


/// The title of the first pause whose signature is `sig`, if any.
pub open spec fn pause_title_spec(pauses: Seq<Pause>, sig: Seq<char>) -> Option<Seq<char>>
    decreases pauses.len(),
{
    if pauses.len() == 0 {
        None
    } else if pauses[0].Signature@ == sig {
        Some(pauses[0].Title@)
    } else {
        pause_title_spec(pauses.drop_first(), sig)
    }
}

/// The title of the first track whose file is `path`, if any.
pub open spec fn track_title_spec(tracks: Seq<Track>, path: Seq<char>) -> Option<Seq<char>>
    decreases tracks.len(),
{
    if tracks.len() == 0 {
        None
    } else if tracks[0].File@ == path {
        Some(tracks[0].Title@)
    } else {
        track_title_spec(tracks.drop_first(), path)
    }
}

/// Looks up the declared title of the pause with the given signature.
pub fn lookup_pause_title(signature: &String, pauses: &Vec<Pause>) -> (r: Option<String>)
    ensures
        match r {
            Some(t) => pause_title_spec(pauses@, signature@) matches Some(s) && s == t@,
            None => pause_title_spec(pauses@, signature@) is None,
        },
{
    let mut i: usize = 0;
    proof {
        assert(pauses@.subrange(0, pauses@.len() as int) =~= pauses@);
    }
    while i < pauses.len()
        invariant
            i <= pauses@.len(),
            pause_title_spec(pauses@, signature@) == pause_title_spec(
                pauses@.subrange(i as int, pauses@.len() as int),
                signature@,
            ),
        decreases pauses@.len() - i,
    {
        let ghost rest = pauses@.subrange(i as int, pauses@.len() as int);
        proof {
            assert(rest[0] == pauses@[i as int]);
            assert(rest.drop_first() =~= pauses@.subrange(i + 1 as int, pauses@.len() as int));
        }
        if string_eq(&pauses[i].Signature, signature) {
            return Some(pauses[i].Title.clone());
        }
        i = i + 1;
    }
    proof {
        assert(pauses@.subrange(pauses@.len() as int, pauses@.len() as int).len() == 0);
    }
    None
}

/// Looks up the declared title of the track with the given file path.
pub fn lookup_track_title(path: &String, tracks: &Vec<Track>) -> (r: Option<String>)
    ensures
        match r {
            Some(t) => track_title_spec(tracks@, path@) matches Some(s) && s == t@,
            None => track_title_spec(tracks@, path@) is None,
        },
{
    let mut i: usize = 0;
    proof {
        assert(tracks@.subrange(0, tracks@.len() as int) =~= tracks@);
    }
    while i < tracks.len()
        invariant
            i <= tracks@.len(),
            track_title_spec(tracks@, path@) == track_title_spec(
                tracks@.subrange(i as int, tracks@.len() as int),
                path@,
            ),
        decreases tracks@.len() - i,
    {
        let ghost rest = tracks@.subrange(i as int, tracks@.len() as int);
        proof {
            assert(rest[0] == tracks@[i as int]);
            assert(rest.drop_first() =~= tracks@.subrange(i + 1 as int, tracks@.len() as int));
        }
        if string_eq(&tracks[i].File, path) {
            return Some(tracks[i].Title.clone());
        }
        i = i + 1;
    }
    proof {
        assert(tracks@.subrange(tracks@.len() as int, tracks@.len() as int).len() == 0);
    }
    None
}

/// The length of the longest list entry in the content program (0 if none).
pub open spec fn max_list_len(content: Seq<ContentItem>) -> nat
    decreases content.len(),
{
    if content.len() == 0 {
        0
    } else {
        let rest = max_list_len(content.drop_last());
        match content.last() {
            ContentItem::List(items) => if items@.len() > rest {
                items@.len()
            } else {
                rest
            },
            _ => rest,
        }
    }
}

/// Walks the content program and returns the largest number of channel slots
/// any list entry declares.
pub fn find_max_elements_in_playlist(content: &Vec<ContentItem>) -> (r: usize)
    ensures
        r == max_list_len(content@),
{
    let mut best: usize = 0;
    let mut i: usize = 0;
    while i < content.len()
        invariant
            i <= content@.len(),
            best == max_list_len(content@.subrange(0, i as int)),
        decreases content@.len() - i,
    {
        proof {
            assert(content@.subrange(0, i + 1 as int).drop_last() =~= content@.subrange(
                0,
                i as int,
            ));
            assert(content@.subrange(0, i + 1 as int).last() == content@[i as int]);
        }
        match &content[i] {
            ContentItem::List(items) => {
                if items.len() > best {
                    best = items.len();
                }
            },
            _ => {},
        }
        i = i + 1;
    }
    proof {
        assert(content@.subrange(0, content@.len() as int) =~= content@);
    }
    best
}

/// Normalizes an explicit seed string into 32 bytes: the string's UTF-8
/// bytes, truncated to 32 or zero-padded up to 32.
pub fn normalize_seed(seed: &String) -> (r: Vec<u8>)
    ensures
        r@.len() == 32,
        forall|i: int|
            0 <= i < 32 ==> r@[i] == (if i < vstd::utf8::encode_utf8(seed@).len() {
                vstd::utf8::encode_utf8(seed@)[i]
            } else {
                0u8
            }),
{
    let s = seed.as_str();
    let bytes = s.as_bytes();
    proof {
        assert(bytes@ == vstd::utf8::encode_utf8(seed@));
    }
    let mut r: Vec<u8> = Vec::new();
    let n = if bytes.len() < 32 {
        bytes.len()
    } else {
        32
    };
    let mut i: usize = 0;
    while i < n
        invariant
            n <= bytes@.len(),
            n <= 32,
            i <= n,
            bytes@ == vstd::utf8::encode_utf8(seed@),
            r@.len() == i,
            forall|j: int| 0 <= j < i ==> r@[j] == bytes@[j],
        decreases n - i,
    {
        r.push(bytes[i]);
        i = i + 1;
    }
    while i < 32
        invariant
            i <= 32,
            n <= 32,
            n <= bytes@.len() || n == bytes@.len(),
            i >= n,
            bytes@ == vstd::utf8::encode_utf8(seed@),
            r@.len() == i,
            n == if bytes@.len() < 32 { bytes@.len() as int } else { 32int },
            forall|j: int| 0 <= j < n ==> r@[j] == bytes@[j],
            forall|j: int| n <= j < i ==> r@[j] == 0u8,
        decreases 32 - i,
    {
        r.push(0u8);
        i = i + 1;
    }
    r
}


/// No list entry is longer than the content program's maximum.
pub proof fn lemma_list_len_le_max(content: Seq<ContentItem>, i: int)
    requires
        0 <= i < content.len(),
    ensures
        (content[i] matches ContentItem::List(items) ==> items@.len() <= max_list_len(content)),
    decreases content.len(),
{
    if i == content.len() - 1 {
        assert(content.last() == content[i]);
    } else {
        lemma_list_len_le_max(content.drop_last(), i);
        assert(content.drop_last()[i] == content[i]);
        assert(max_list_len(content.drop_last()) <= max_list_len(content));
    }
}

} // verus!
