//! The standard tag keys and their textual names.
//!
//! These are the tag keys the metadata extractor classifies; any tag not
//! carrying one of these keys lands in the open `extras` bucket.

use vstd::prelude::*;

use crate::strutil::{chars_eq_str, str_chars};

verus! {

/// A standard tag key.
#[derive(Debug, Clone, Copy, PartialEq, Eq, Structural)]
pub enum TagKey {
    AcoustidFingerprint,
    AcoustidId,
    Album,
    AlbumArtist,
    Arranger,
    Artist,
    Bpm,
    Comment,
    Compilation,
    Composer,
    Conductor,
    ContentGroup,
    Copyright,
    Date,
    Description,
    DiscNumber,
    DiscSubtitle,
    DiscTotal,
    EncodedBy,
    Encoder,
    EncoderSettings,
    EncodingDate,
    Engineer,
    Ensemble,
    Genre,
    IdentAsin,
    IdentBarcode,
    IdentCatalogNumber,
    IdentEanUpn,
    IdentIsrc,
    IdentPn,
    IdentPodcast,
    IdentUpc,
    Label,
    Language,
    License,
    Lyricist,
    Lyrics,
    MediaFormat,
    MixDj,
    MixEngineer,
    Mood,
    MovementName,
    MovementNumber,
    MusicBrainzAlbumArtistId,
    MusicBrainzAlbumId,
    MusicBrainzArtistId,
    MusicBrainzDiscId,
    MusicBrainzGenreId,
    MusicBrainzLabelId,
    MusicBrainzOriginalAlbumId,
    MusicBrainzOriginalArtistId,
    MusicBrainzRecordingId,
    MusicBrainzReleaseGroupId,
    MusicBrainzReleaseStatus,
    MusicBrainzReleaseTrackId,
    MusicBrainzReleaseType,
    MusicBrainzTrackId,
    MusicBrainzWorkId,
    Opus,
    OriginalAlbum,
    OriginalArtist,
    OriginalDate,
    OriginalFile,
    OriginalWriter,
    Owner,
    Part,
    PartTotal,
    Performer,
    Podcast,
    PodcastCategory,
    PodcastDescription,
    PodcastKeywords,
    Producer,
    PurchaseDate,
    Rating,
    ReleaseCountry,
    ReleaseDate,
    Remixer,
    ReplayGainAlbumGain,
    ReplayGainAlbumPeak,
    ReplayGainTrackGain,
    ReplayGainTrackPeak,
    Script,
    SortAlbum,
    SortAlbumArtist,
    SortArtist,
    SortComposer,
    SortTrackTitle,
    TaggingDate,
    TrackNumber,
    TrackSubtitle,
    TrackTitle,
    TrackTotal,
    TvEpisode,
    TvEpisodeTitle,
    TvNetwork,
    TvSeason,
    TvShowTitle,
    Url,
    UrlArtist,
    UrlCopyright,
    UrlInternetRadio,
    UrlLabel,
    UrlOfficial,
    UrlPayment,
    UrlPodcast,
    UrlPurchase,
    UrlSource,
    Version,
    Writer,
}

/// The standard tag key a name denotes, if any.
pub open spec fn tagkey_of(s: Seq<char>) -> Option<TagKey> {
    if s == "AcoustidFingerprint"@ {
        Some(TagKey::AcoustidFingerprint)
    } else if s == "AcoustidId"@ {
        Some(TagKey::AcoustidId)
    } else if s == "Album"@ {
        Some(TagKey::Album)
    } else if s == "AlbumArtist"@ {
        Some(TagKey::AlbumArtist)
    } else if s == "Arranger"@ {
        Some(TagKey::Arranger)
    } else if s == "Artist"@ {
        Some(TagKey::Artist)
    } else if s == "Bpm"@ {
        Some(TagKey::Bpm)
    } else if s == "Comment"@ {
        Some(TagKey::Comment)
    } else if s == "Compilation"@ {
        Some(TagKey::Compilation)
    } else if s == "Composer"@ {
        Some(TagKey::Composer)
    } else if s == "Conductor"@ {
        Some(TagKey::Conductor)
    } else if s == "ContentGroup"@ {
        Some(TagKey::ContentGroup)
    } else if s == "Copyright"@ {
        Some(TagKey::Copyright)
    } else if s == "Date"@ {
        Some(TagKey::Date)
    } else if s == "Description"@ {
        Some(TagKey::Description)
    } else if s == "DiscNumber"@ {
        Some(TagKey::DiscNumber)
    } else if s == "DiscSubtitle"@ {
        Some(TagKey::DiscSubtitle)
    } else if s == "DiscTotal"@ {
        Some(TagKey::DiscTotal)
    } else if s == "EncodedBy"@ {
        Some(TagKey::EncodedBy)
    } else if s == "Encoder"@ {
        Some(TagKey::Encoder)
    } else if s == "EncoderSettings"@ {
        Some(TagKey::EncoderSettings)
    } else if s == "EncodingDate"@ {
        Some(TagKey::EncodingDate)
    } else if s == "Engineer"@ {
        Some(TagKey::Engineer)
    } else if s == "Ensemble"@ {
        Some(TagKey::Ensemble)
    } else if s == "Genre"@ {
        Some(TagKey::Genre)
    } else if s == "IdentAsin"@ {
        Some(TagKey::IdentAsin)
    } else if s == "IdentBarcode"@ {
        Some(TagKey::IdentBarcode)
    } else if s == "IdentCatalogNumber"@ {
        Some(TagKey::IdentCatalogNumber)
    } else if s == "IdentEanUpn"@ {
        Some(TagKey::IdentEanUpn)
    } else if s == "IdentIsrc"@ {
        Some(TagKey::IdentIsrc)
    } else if s == "IdentPn"@ {
        Some(TagKey::IdentPn)
    } else if s == "IdentPodcast"@ {
        Some(TagKey::IdentPodcast)
    } else if s == "IdentUpc"@ {
        Some(TagKey::IdentUpc)
    } else if s == "Label"@ {
        Some(TagKey::Label)
    } else if s == "Language"@ {
        Some(TagKey::Language)
    } else if s == "License"@ {
        Some(TagKey::License)
    } else if s == "Lyricist"@ {
        Some(TagKey::Lyricist)
    } else if s == "Lyrics"@ {
        Some(TagKey::Lyrics)
    } else if s == "MediaFormat"@ {
        Some(TagKey::MediaFormat)
    } else if s == "MixDj"@ {
        Some(TagKey::MixDj)
    } else if s == "MixEngineer"@ {
        Some(TagKey::MixEngineer)
    } else if s == "Mood"@ {
        Some(TagKey::Mood)
    } else if s == "MovementName"@ {
        Some(TagKey::MovementName)
    } else if s == "MovementNumber"@ {
        Some(TagKey::MovementNumber)
    } else if s == "MusicBrainzAlbumArtistId"@ {
        Some(TagKey::MusicBrainzAlbumArtistId)
    } else if s == "MusicBrainzAlbumId"@ {
        Some(TagKey::MusicBrainzAlbumId)
    } else if s == "MusicBrainzArtistId"@ {
        Some(TagKey::MusicBrainzArtistId)
    } else if s == "MusicBrainzDiscId"@ {
        Some(TagKey::MusicBrainzDiscId)
    } else if s == "MusicBrainzGenreId"@ {
        Some(TagKey::MusicBrainzGenreId)
    } else if s == "MusicBrainzLabelId"@ {
        Some(TagKey::MusicBrainzLabelId)
    } else if s == "MusicBrainzOriginalAlbumId"@ {
        Some(TagKey::MusicBrainzOriginalAlbumId)
    } else if s == "MusicBrainzOriginalArtistId"@ {
        Some(TagKey::MusicBrainzOriginalArtistId)
    } else if s == "MusicBrainzRecordingId"@ {
        Some(TagKey::MusicBrainzRecordingId)
    } else if s == "MusicBrainzReleaseGroupId"@ {
        Some(TagKey::MusicBrainzReleaseGroupId)
    } else if s == "MusicBrainzReleaseStatus"@ {
        Some(TagKey::MusicBrainzReleaseStatus)
    } else if s == "MusicBrainzReleaseTrackId"@ {
        Some(TagKey::MusicBrainzReleaseTrackId)
    } else if s == "MusicBrainzReleaseType"@ {
        Some(TagKey::MusicBrainzReleaseType)
    } else if s == "MusicBrainzTrackId"@ {
        Some(TagKey::MusicBrainzTrackId)
    } else if s == "MusicBrainzWorkId"@ {
        Some(TagKey::MusicBrainzWorkId)
    } else if s == "Opus"@ {
        Some(TagKey::Opus)
    } else if s == "OriginalAlbum"@ {
        Some(TagKey::OriginalAlbum)
    } else if s == "OriginalArtist"@ {
        Some(TagKey::OriginalArtist)
    } else if s == "OriginalDate"@ {
        Some(TagKey::OriginalDate)
    } else if s == "OriginalFile"@ {
        Some(TagKey::OriginalFile)
    } else if s == "OriginalWriter"@ {
        Some(TagKey::OriginalWriter)
    } else if s == "Owner"@ {
        Some(TagKey::Owner)
    } else if s == "Part"@ {
        Some(TagKey::Part)
    } else if s == "PartTotal"@ {
        Some(TagKey::PartTotal)
    } else if s == "Performer"@ {
        Some(TagKey::Performer)
    } else if s == "Podcast"@ {
        Some(TagKey::Podcast)
    } else if s == "PodcastCategory"@ {
        Some(TagKey::PodcastCategory)
    } else if s == "PodcastDescription"@ {
        Some(TagKey::PodcastDescription)
    } else if s == "PodcastKeywords"@ {
        Some(TagKey::PodcastKeywords)
    } else if s == "Producer"@ {
        Some(TagKey::Producer)
    } else if s == "PurchaseDate"@ {
        Some(TagKey::PurchaseDate)
    } else if s == "Rating"@ {
        Some(TagKey::Rating)
    } else if s == "ReleaseCountry"@ {
        Some(TagKey::ReleaseCountry)
    } else if s == "ReleaseDate"@ {
        Some(TagKey::ReleaseDate)
    } else if s == "Remixer"@ {
        Some(TagKey::Remixer)
    } else if s == "ReplayGainAlbumGain"@ {
        Some(TagKey::ReplayGainAlbumGain)
    } else if s == "ReplayGainAlbumPeak"@ {
        Some(TagKey::ReplayGainAlbumPeak)
    } else if s == "ReplayGainTrackGain"@ {
        Some(TagKey::ReplayGainTrackGain)
    } else if s == "ReplayGainTrackPeak"@ {
        Some(TagKey::ReplayGainTrackPeak)
    } else if s == "Script"@ {
        Some(TagKey::Script)
    } else if s == "SortAlbum"@ {
        Some(TagKey::SortAlbum)
    } else if s == "SortAlbumArtist"@ {
        Some(TagKey::SortAlbumArtist)
    } else if s == "SortArtist"@ {
        Some(TagKey::SortArtist)
    } else if s == "SortComposer"@ {
        Some(TagKey::SortComposer)
    } else if s == "SortTrackTitle"@ {
        Some(TagKey::SortTrackTitle)
    } else if s == "TaggingDate"@ {
        Some(TagKey::TaggingDate)
    } else if s == "TrackNumber"@ {
        Some(TagKey::TrackNumber)
    } else if s == "TrackSubtitle"@ {
        Some(TagKey::TrackSubtitle)
    } else if s == "TrackTitle"@ {
        Some(TagKey::TrackTitle)
    } else if s == "TrackTotal"@ {
        Some(TagKey::TrackTotal)
    } else if s == "TvEpisode"@ {
        Some(TagKey::TvEpisode)
    } else if s == "TvEpisodeTitle"@ {
        Some(TagKey::TvEpisodeTitle)
    } else if s == "TvNetwork"@ {
        Some(TagKey::TvNetwork)
    } else if s == "TvSeason"@ {
        Some(TagKey::TvSeason)
    } else if s == "TvShowTitle"@ {
        Some(TagKey::TvShowTitle)
    } else if s == "Url"@ {
        Some(TagKey::Url)
    } else if s == "UrlArtist"@ {
        Some(TagKey::UrlArtist)
    } else if s == "UrlCopyright"@ {
        Some(TagKey::UrlCopyright)
    } else if s == "UrlInternetRadio"@ {
        Some(TagKey::UrlInternetRadio)
    } else if s == "UrlLabel"@ {
        Some(TagKey::UrlLabel)
    } else if s == "UrlOfficial"@ {
        Some(TagKey::UrlOfficial)
    } else if s == "UrlPayment"@ {
        Some(TagKey::UrlPayment)
    } else if s == "UrlPodcast"@ {
        Some(TagKey::UrlPodcast)
    } else if s == "UrlPurchase"@ {
        Some(TagKey::UrlPurchase)
    } else if s == "UrlSource"@ {
        Some(TagKey::UrlSource)
    } else if s == "Version"@ {
        Some(TagKey::Version)
    } else if s == "Writer"@ {
        Some(TagKey::Writer)
    } else {
        None
    }
}

/// The textual name of a standard tag key.
pub open spec fn tagkey_name_of(k: TagKey) -> Seq<char> {
    match k {
        TagKey::AcoustidFingerprint => "AcoustidFingerprint"@,
        TagKey::AcoustidId => "AcoustidId"@,
        TagKey::Album => "Album"@,
        TagKey::AlbumArtist => "AlbumArtist"@,
        TagKey::Arranger => "Arranger"@,
        TagKey::Artist => "Artist"@,
        TagKey::Bpm => "Bpm"@,
        TagKey::Comment => "Comment"@,
        TagKey::Compilation => "Compilation"@,
        TagKey::Composer => "Composer"@,
        TagKey::Conductor => "Conductor"@,
        TagKey::ContentGroup => "ContentGroup"@,
        TagKey::Copyright => "Copyright"@,
        TagKey::Date => "Date"@,
        TagKey::Description => "Description"@,
        TagKey::DiscNumber => "DiscNumber"@,
        TagKey::DiscSubtitle => "DiscSubtitle"@,
        TagKey::DiscTotal => "DiscTotal"@,
        TagKey::EncodedBy => "EncodedBy"@,
        TagKey::Encoder => "Encoder"@,
        TagKey::EncoderSettings => "EncoderSettings"@,
        TagKey::EncodingDate => "EncodingDate"@,
        TagKey::Engineer => "Engineer"@,
        TagKey::Ensemble => "Ensemble"@,
        TagKey::Genre => "Genre"@,
        TagKey::IdentAsin => "IdentAsin"@,
        TagKey::IdentBarcode => "IdentBarcode"@,
        TagKey::IdentCatalogNumber => "IdentCatalogNumber"@,
        TagKey::IdentEanUpn => "IdentEanUpn"@,
        TagKey::IdentIsrc => "IdentIsrc"@,
        TagKey::IdentPn => "IdentPn"@,
        TagKey::IdentPodcast => "IdentPodcast"@,
        TagKey::IdentUpc => "IdentUpc"@,
        TagKey::Label => "Label"@,
        TagKey::Language => "Language"@,
        TagKey::License => "License"@,
        TagKey::Lyricist => "Lyricist"@,
        TagKey::Lyrics => "Lyrics"@,
        TagKey::MediaFormat => "MediaFormat"@,
        TagKey::MixDj => "MixDj"@,
        TagKey::MixEngineer => "MixEngineer"@,
        TagKey::Mood => "Mood"@,
        TagKey::MovementName => "MovementName"@,
        TagKey::MovementNumber => "MovementNumber"@,
        TagKey::MusicBrainzAlbumArtistId => "MusicBrainzAlbumArtistId"@,
        TagKey::MusicBrainzAlbumId => "MusicBrainzAlbumId"@,
        TagKey::MusicBrainzArtistId => "MusicBrainzArtistId"@,
        TagKey::MusicBrainzDiscId => "MusicBrainzDiscId"@,
        TagKey::MusicBrainzGenreId => "MusicBrainzGenreId"@,
        TagKey::MusicBrainzLabelId => "MusicBrainzLabelId"@,
        TagKey::MusicBrainzOriginalAlbumId => "MusicBrainzOriginalAlbumId"@,
        TagKey::MusicBrainzOriginalArtistId => "MusicBrainzOriginalArtistId"@,
        TagKey::MusicBrainzRecordingId => "MusicBrainzRecordingId"@,
        TagKey::MusicBrainzReleaseGroupId => "MusicBrainzReleaseGroupId"@,
        TagKey::MusicBrainzReleaseStatus => "MusicBrainzReleaseStatus"@,
        TagKey::MusicBrainzReleaseTrackId => "MusicBrainzReleaseTrackId"@,
        TagKey::MusicBrainzReleaseType => "MusicBrainzReleaseType"@,
        TagKey::MusicBrainzTrackId => "MusicBrainzTrackId"@,
        TagKey::MusicBrainzWorkId => "MusicBrainzWorkId"@,
        TagKey::Opus => "Opus"@,
        TagKey::OriginalAlbum => "OriginalAlbum"@,
        TagKey::OriginalArtist => "OriginalArtist"@,
        TagKey::OriginalDate => "OriginalDate"@,
        TagKey::OriginalFile => "OriginalFile"@,
        TagKey::OriginalWriter => "OriginalWriter"@,
        TagKey::Owner => "Owner"@,
        TagKey::Part => "Part"@,
        TagKey::PartTotal => "PartTotal"@,
        TagKey::Performer => "Performer"@,
        TagKey::Podcast => "Podcast"@,
        TagKey::PodcastCategory => "PodcastCategory"@,
        TagKey::PodcastDescription => "PodcastDescription"@,
        TagKey::PodcastKeywords => "PodcastKeywords"@,
        TagKey::Producer => "Producer"@,
        TagKey::PurchaseDate => "PurchaseDate"@,
        TagKey::Rating => "Rating"@,
        TagKey::ReleaseCountry => "ReleaseCountry"@,
        TagKey::ReleaseDate => "ReleaseDate"@,
        TagKey::Remixer => "Remixer"@,
        TagKey::ReplayGainAlbumGain => "ReplayGainAlbumGain"@,
        TagKey::ReplayGainAlbumPeak => "ReplayGainAlbumPeak"@,
        TagKey::ReplayGainTrackGain => "ReplayGainTrackGain"@,
        TagKey::ReplayGainTrackPeak => "ReplayGainTrackPeak"@,
        TagKey::Script => "Script"@,
        TagKey::SortAlbum => "SortAlbum"@,
        TagKey::SortAlbumArtist => "SortAlbumArtist"@,
        TagKey::SortArtist => "SortArtist"@,
        TagKey::SortComposer => "SortComposer"@,
        TagKey::SortTrackTitle => "SortTrackTitle"@,
        TagKey::TaggingDate => "TaggingDate"@,
        TagKey::TrackNumber => "TrackNumber"@,
        TagKey::TrackSubtitle => "TrackSubtitle"@,
        TagKey::TrackTitle => "TrackTitle"@,
        TagKey::TrackTotal => "TrackTotal"@,
        TagKey::TvEpisode => "TvEpisode"@,
        TagKey::TvEpisodeTitle => "TvEpisodeTitle"@,
        TagKey::TvNetwork => "TvNetwork"@,
        TagKey::TvSeason => "TvSeason"@,
        TagKey::TvShowTitle => "TvShowTitle"@,
        TagKey::Url => "Url"@,
        TagKey::UrlArtist => "UrlArtist"@,
        TagKey::UrlCopyright => "UrlCopyright"@,
        TagKey::UrlInternetRadio => "UrlInternetRadio"@,
        TagKey::UrlLabel => "UrlLabel"@,
        TagKey::UrlOfficial => "UrlOfficial"@,
        TagKey::UrlPayment => "UrlPayment"@,
        TagKey::UrlPodcast => "UrlPodcast"@,
        TagKey::UrlPurchase => "UrlPurchase"@,
        TagKey::UrlSource => "UrlSource"@,
        TagKey::Version => "Version"@,
        TagKey::Writer => "Writer"@,
    }
}

/// Given a string matching some standard tag key, returns that key.
#[verifier::rlimit(100)]
pub fn metatagstr2stdtagkey(tagkey: &str) -> (r: Option<TagKey>)
    ensures
        r == tagkey_of(tagkey@),
{
    let cs = str_chars(tagkey);
    if chars_eq_str(&cs, "AcoustidFingerprint") {
        Some(TagKey::AcoustidFingerprint)
    } else if chars_eq_str(&cs, "AcoustidId") {
        Some(TagKey::AcoustidId)
    } else if chars_eq_str(&cs, "Album") {
        Some(TagKey::Album)
    } else if chars_eq_str(&cs, "AlbumArtist") {
        Some(TagKey::AlbumArtist)
    } else if chars_eq_str(&cs, "Arranger") {
        Some(TagKey::Arranger)
    } else if chars_eq_str(&cs, "Artist") {
        Some(TagKey::Artist)
    } else if chars_eq_str(&cs, "Bpm") {
        Some(TagKey::Bpm)
    } else if chars_eq_str(&cs, "Comment") {
        Some(TagKey::Comment)
    } else if chars_eq_str(&cs, "Compilation") {
        Some(TagKey::Compilation)
    } else if chars_eq_str(&cs, "Composer") {
        Some(TagKey::Composer)
    } else if chars_eq_str(&cs, "Conductor") {
        Some(TagKey::Conductor)
    } else if chars_eq_str(&cs, "ContentGroup") {
        Some(TagKey::ContentGroup)
    } else if chars_eq_str(&cs, "Copyright") {
        Some(TagKey::Copyright)
    } else if chars_eq_str(&cs, "Date") {
        Some(TagKey::Date)
    } else if chars_eq_str(&cs, "Description") {
        Some(TagKey::Description)
    } else if chars_eq_str(&cs, "DiscNumber") {
        Some(TagKey::DiscNumber)
    } else if chars_eq_str(&cs, "DiscSubtitle") {
        Some(TagKey::DiscSubtitle)
    } else if chars_eq_str(&cs, "DiscTotal") {
        Some(TagKey::DiscTotal)
    } else if chars_eq_str(&cs, "EncodedBy") {
        Some(TagKey::EncodedBy)
    } else if chars_eq_str(&cs, "Encoder") {
        Some(TagKey::Encoder)
    } else if chars_eq_str(&cs, "EncoderSettings") {
        Some(TagKey::EncoderSettings)
    } else if chars_eq_str(&cs, "EncodingDate") {
        Some(TagKey::EncodingDate)
    } else if chars_eq_str(&cs, "Engineer") {
        Some(TagKey::Engineer)
    } else if chars_eq_str(&cs, "Ensemble") {
        Some(TagKey::Ensemble)
    } else if chars_eq_str(&cs, "Genre") {
        Some(TagKey::Genre)
    } else if chars_eq_str(&cs, "IdentAsin") {
        Some(TagKey::IdentAsin)
    } else if chars_eq_str(&cs, "IdentBarcode") {
        Some(TagKey::IdentBarcode)
    } else if chars_eq_str(&cs, "IdentCatalogNumber") {
        Some(TagKey::IdentCatalogNumber)
    } else if chars_eq_str(&cs, "IdentEanUpn") {
        Some(TagKey::IdentEanUpn)
    } else if chars_eq_str(&cs, "IdentIsrc") {
        Some(TagKey::IdentIsrc)
    } else if chars_eq_str(&cs, "IdentPn") {
        Some(TagKey::IdentPn)
    } else if chars_eq_str(&cs, "IdentPodcast") {
        Some(TagKey::IdentPodcast)
    } else if chars_eq_str(&cs, "IdentUpc") {
        Some(TagKey::IdentUpc)
    } else if chars_eq_str(&cs, "Label") {
        Some(TagKey::Label)
    } else if chars_eq_str(&cs, "Language") {
        Some(TagKey::Language)
    } else if chars_eq_str(&cs, "License") {
        Some(TagKey::License)
    } else if chars_eq_str(&cs, "Lyricist") {
        Some(TagKey::Lyricist)
    } else if chars_eq_str(&cs, "Lyrics") {
        Some(TagKey::Lyrics)
    } else if chars_eq_str(&cs, "MediaFormat") {
        Some(TagKey::MediaFormat)
    } else if chars_eq_str(&cs, "MixDj") {
        Some(TagKey::MixDj)
    } else if chars_eq_str(&cs, "MixEngineer") {
        Some(TagKey::MixEngineer)
    } else if chars_eq_str(&cs, "Mood") {
        Some(TagKey::Mood)
    } else if chars_eq_str(&cs, "MovementName") {
        Some(TagKey::MovementName)
    } else if chars_eq_str(&cs, "MovementNumber") {
        Some(TagKey::MovementNumber)
    } else if chars_eq_str(&cs, "MusicBrainzAlbumArtistId") {
        Some(TagKey::MusicBrainzAlbumArtistId)
    } else if chars_eq_str(&cs, "MusicBrainzAlbumId") {
        Some(TagKey::MusicBrainzAlbumId)
    } else if chars_eq_str(&cs, "MusicBrainzArtistId") {
        Some(TagKey::MusicBrainzArtistId)
    } else if chars_eq_str(&cs, "MusicBrainzDiscId") {
        Some(TagKey::MusicBrainzDiscId)
    } else if chars_eq_str(&cs, "MusicBrainzGenreId") {
        Some(TagKey::MusicBrainzGenreId)
    } else if chars_eq_str(&cs, "MusicBrainzLabelId") {
        Some(TagKey::MusicBrainzLabelId)
    } else if chars_eq_str(&cs, "MusicBrainzOriginalAlbumId") {
        Some(TagKey::MusicBrainzOriginalAlbumId)
    } else if chars_eq_str(&cs, "MusicBrainzOriginalArtistId") {
        Some(TagKey::MusicBrainzOriginalArtistId)
    } else if chars_eq_str(&cs, "MusicBrainzRecordingId") {
        Some(TagKey::MusicBrainzRecordingId)
    } else if chars_eq_str(&cs, "MusicBrainzReleaseGroupId") {
        Some(TagKey::MusicBrainzReleaseGroupId)
    } else if chars_eq_str(&cs, "MusicBrainzReleaseStatus") {
        Some(TagKey::MusicBrainzReleaseStatus)
    } else if chars_eq_str(&cs, "MusicBrainzReleaseTrackId") {
        Some(TagKey::MusicBrainzReleaseTrackId)
    } else if chars_eq_str(&cs, "MusicBrainzReleaseType") {
        Some(TagKey::MusicBrainzReleaseType)
    } else if chars_eq_str(&cs, "MusicBrainzTrackId") {
        Some(TagKey::MusicBrainzTrackId)
    } else if chars_eq_str(&cs, "MusicBrainzWorkId") {
        Some(TagKey::MusicBrainzWorkId)
    } else if chars_eq_str(&cs, "Opus") {
        Some(TagKey::Opus)
    } else if chars_eq_str(&cs, "OriginalAlbum") {
        Some(TagKey::OriginalAlbum)
    } else if chars_eq_str(&cs, "OriginalArtist") {
        Some(TagKey::OriginalArtist)
    } else if chars_eq_str(&cs, "OriginalDate") {
        Some(TagKey::OriginalDate)
    } else if chars_eq_str(&cs, "OriginalFile") {
        Some(TagKey::OriginalFile)
    } else if chars_eq_str(&cs, "OriginalWriter") {
        Some(TagKey::OriginalWriter)
    } else if chars_eq_str(&cs, "Owner") {
        Some(TagKey::Owner)
    } else if chars_eq_str(&cs, "Part") {
        Some(TagKey::Part)
    } else if chars_eq_str(&cs, "PartTotal") {
        Some(TagKey::PartTotal)
    } else if chars_eq_str(&cs, "Performer") {
        Some(TagKey::Performer)
    } else if chars_eq_str(&cs, "Podcast") {
        Some(TagKey::Podcast)
    } else if chars_eq_str(&cs, "PodcastCategory") {
        Some(TagKey::PodcastCategory)
    } else if chars_eq_str(&cs, "PodcastDescription") {
        Some(TagKey::PodcastDescription)
    } else if chars_eq_str(&cs, "PodcastKeywords") {
        Some(TagKey::PodcastKeywords)
    } else if chars_eq_str(&cs, "Producer") {
        Some(TagKey::Producer)
    } else if chars_eq_str(&cs, "PurchaseDate") {
        Some(TagKey::PurchaseDate)
    } else if chars_eq_str(&cs, "Rating") {
        Some(TagKey::Rating)
    } else if chars_eq_str(&cs, "ReleaseCountry") {
        Some(TagKey::ReleaseCountry)
    } else if chars_eq_str(&cs, "ReleaseDate") {
        Some(TagKey::ReleaseDate)
    } else if chars_eq_str(&cs, "Remixer") {
        Some(TagKey::Remixer)
    } else if chars_eq_str(&cs, "ReplayGainAlbumGain") {
        Some(TagKey::ReplayGainAlbumGain)
    } else if chars_eq_str(&cs, "ReplayGainAlbumPeak") {
        Some(TagKey::ReplayGainAlbumPeak)
    } else if chars_eq_str(&cs, "ReplayGainTrackGain") {
        Some(TagKey::ReplayGainTrackGain)
    } else if chars_eq_str(&cs, "ReplayGainTrackPeak") {
        Some(TagKey::ReplayGainTrackPeak)
    } else if chars_eq_str(&cs, "Script") {
        Some(TagKey::Script)
    } else if chars_eq_str(&cs, "SortAlbum") {
        Some(TagKey::SortAlbum)
    } else if chars_eq_str(&cs, "SortAlbumArtist") {
        Some(TagKey::SortAlbumArtist)
    } else if chars_eq_str(&cs, "SortArtist") {
        Some(TagKey::SortArtist)
    } else if chars_eq_str(&cs, "SortComposer") {
        Some(TagKey::SortComposer)
    } else if chars_eq_str(&cs, "SortTrackTitle") {
        Some(TagKey::SortTrackTitle)
    } else if chars_eq_str(&cs, "TaggingDate") {
        Some(TagKey::TaggingDate)
    } else if chars_eq_str(&cs, "TrackNumber") {
        Some(TagKey::TrackNumber)
    } else if chars_eq_str(&cs, "TrackSubtitle") {
        Some(TagKey::TrackSubtitle)
    } else if chars_eq_str(&cs, "TrackTitle") {
        Some(TagKey::TrackTitle)
    } else if chars_eq_str(&cs, "TrackTotal") {
        Some(TagKey::TrackTotal)
    } else if chars_eq_str(&cs, "TvEpisode") {
        Some(TagKey::TvEpisode)
    } else if chars_eq_str(&cs, "TvEpisodeTitle") {
        Some(TagKey::TvEpisodeTitle)
    } else if chars_eq_str(&cs, "TvNetwork") {
        Some(TagKey::TvNetwork)
    } else if chars_eq_str(&cs, "TvSeason") {
        Some(TagKey::TvSeason)
    } else if chars_eq_str(&cs, "TvShowTitle") {
        Some(TagKey::TvShowTitle)
    } else if chars_eq_str(&cs, "Url") {
        Some(TagKey::Url)
    } else if chars_eq_str(&cs, "UrlArtist") {
        Some(TagKey::UrlArtist)
    } else if chars_eq_str(&cs, "UrlCopyright") {
        Some(TagKey::UrlCopyright)
    } else if chars_eq_str(&cs, "UrlInternetRadio") {
        Some(TagKey::UrlInternetRadio)
    } else if chars_eq_str(&cs, "UrlLabel") {
        Some(TagKey::UrlLabel)
    } else if chars_eq_str(&cs, "UrlOfficial") {
        Some(TagKey::UrlOfficial)
    } else if chars_eq_str(&cs, "UrlPayment") {
        Some(TagKey::UrlPayment)
    } else if chars_eq_str(&cs, "UrlPodcast") {
        Some(TagKey::UrlPodcast)
    } else if chars_eq_str(&cs, "UrlPurchase") {
        Some(TagKey::UrlPurchase)
    } else if chars_eq_str(&cs, "UrlSource") {
        Some(TagKey::UrlSource)
    } else if chars_eq_str(&cs, "Version") {
        Some(TagKey::Version)
    } else if chars_eq_str(&cs, "Writer") {
        Some(TagKey::Writer)
    } else {
        None
    }
}

/// The textual name of a standard tag key.
#[verifier::rlimit(100)]
pub fn tagkey_name(k: &TagKey) -> (r: &'static str)
    ensures
        r@ == tagkey_name_of(*k),
{
    match k {
        TagKey::AcoustidFingerprint => "AcoustidFingerprint",
        TagKey::AcoustidId => "AcoustidId",
        TagKey::Album => "Album",
        TagKey::AlbumArtist => "AlbumArtist",
        TagKey::Arranger => "Arranger",
        TagKey::Artist => "Artist",
        TagKey::Bpm => "Bpm",
        TagKey::Comment => "Comment",
        TagKey::Compilation => "Compilation",
        TagKey::Composer => "Composer",
        TagKey::Conductor => "Conductor",
        TagKey::ContentGroup => "ContentGroup",
        TagKey::Copyright => "Copyright",
        TagKey::Date => "Date",
        TagKey::Description => "Description",
        TagKey::DiscNumber => "DiscNumber",
        TagKey::DiscSubtitle => "DiscSubtitle",
        TagKey::DiscTotal => "DiscTotal",
        TagKey::EncodedBy => "EncodedBy",
        TagKey::Encoder => "Encoder",
        TagKey::EncoderSettings => "EncoderSettings",
        TagKey::EncodingDate => "EncodingDate",
        TagKey::Engineer => "Engineer",
        TagKey::Ensemble => "Ensemble",
        TagKey::Genre => "Genre",
        TagKey::IdentAsin => "IdentAsin",
        TagKey::IdentBarcode => "IdentBarcode",
        TagKey::IdentCatalogNumber => "IdentCatalogNumber",
        TagKey::IdentEanUpn => "IdentEanUpn",
        TagKey::IdentIsrc => "IdentIsrc",
        TagKey::IdentPn => "IdentPn",
        TagKey::IdentPodcast => "IdentPodcast",
        TagKey::IdentUpc => "IdentUpc",
        TagKey::Label => "Label",
        TagKey::Language => "Language",
        TagKey::License => "License",
        TagKey::Lyricist => "Lyricist",
        TagKey::Lyrics => "Lyrics",
        TagKey::MediaFormat => "MediaFormat",
        TagKey::MixDj => "MixDj",
        TagKey::MixEngineer => "MixEngineer",
        TagKey::Mood => "Mood",
        TagKey::MovementName => "MovementName",
        TagKey::MovementNumber => "MovementNumber",
        TagKey::MusicBrainzAlbumArtistId => "MusicBrainzAlbumArtistId",
        TagKey::MusicBrainzAlbumId => "MusicBrainzAlbumId",
        TagKey::MusicBrainzArtistId => "MusicBrainzArtistId",
        TagKey::MusicBrainzDiscId => "MusicBrainzDiscId",
        TagKey::MusicBrainzGenreId => "MusicBrainzGenreId",
        TagKey::MusicBrainzLabelId => "MusicBrainzLabelId",
        TagKey::MusicBrainzOriginalAlbumId => "MusicBrainzOriginalAlbumId",
        TagKey::MusicBrainzOriginalArtistId => "MusicBrainzOriginalArtistId",
        TagKey::MusicBrainzRecordingId => "MusicBrainzRecordingId",
        TagKey::MusicBrainzReleaseGroupId => "MusicBrainzReleaseGroupId",
        TagKey::MusicBrainzReleaseStatus => "MusicBrainzReleaseStatus",
        TagKey::MusicBrainzReleaseTrackId => "MusicBrainzReleaseTrackId",
        TagKey::MusicBrainzReleaseType => "MusicBrainzReleaseType",
        TagKey::MusicBrainzTrackId => "MusicBrainzTrackId",
        TagKey::MusicBrainzWorkId => "MusicBrainzWorkId",
        TagKey::Opus => "Opus",
        TagKey::OriginalAlbum => "OriginalAlbum",
        TagKey::OriginalArtist => "OriginalArtist",
        TagKey::OriginalDate => "OriginalDate",
        TagKey::OriginalFile => "OriginalFile",
        TagKey::OriginalWriter => "OriginalWriter",
        TagKey::Owner => "Owner",
        TagKey::Part => "Part",
        TagKey::PartTotal => "PartTotal",
        TagKey::Performer => "Performer",
        TagKey::Podcast => "Podcast",
        TagKey::PodcastCategory => "PodcastCategory",
        TagKey::PodcastDescription => "PodcastDescription",
        TagKey::PodcastKeywords => "PodcastKeywords",
        TagKey::Producer => "Producer",
        TagKey::PurchaseDate => "PurchaseDate",
        TagKey::Rating => "Rating",
        TagKey::ReleaseCountry => "ReleaseCountry",
        TagKey::ReleaseDate => "ReleaseDate",
        TagKey::Remixer => "Remixer",
        TagKey::ReplayGainAlbumGain => "ReplayGainAlbumGain",
        TagKey::ReplayGainAlbumPeak => "ReplayGainAlbumPeak",
        TagKey::ReplayGainTrackGain => "ReplayGainTrackGain",
        TagKey::ReplayGainTrackPeak => "ReplayGainTrackPeak",
        TagKey::Script => "Script",
        TagKey::SortAlbum => "SortAlbum",
        TagKey::SortAlbumArtist => "SortAlbumArtist",
        TagKey::SortArtist => "SortArtist",
        TagKey::SortComposer => "SortComposer",
        TagKey::SortTrackTitle => "SortTrackTitle",
        TagKey::TaggingDate => "TaggingDate",
        TagKey::TrackNumber => "TrackNumber",
        TagKey::TrackSubtitle => "TrackSubtitle",
        TagKey::TrackTitle => "TrackTitle",
        TagKey::TrackTotal => "TrackTotal",
        TagKey::TvEpisode => "TvEpisode",
        TagKey::TvEpisodeTitle => "TvEpisodeTitle",
        TagKey::TvNetwork => "TvNetwork",
        TagKey::TvSeason => "TvSeason",
        TagKey::TvShowTitle => "TvShowTitle",
        TagKey::Url => "Url",
        TagKey::UrlArtist => "UrlArtist",
        TagKey::UrlCopyright => "UrlCopyright",
        TagKey::UrlInternetRadio => "UrlInternetRadio",
        TagKey::UrlLabel => "UrlLabel",
        TagKey::UrlOfficial => "UrlOfficial",
        TagKey::UrlPayment => "UrlPayment",
        TagKey::UrlPodcast => "UrlPodcast",
        TagKey::UrlPurchase => "UrlPurchase",
        TagKey::UrlSource => "UrlSource",
        TagKey::Version => "Version",
        TagKey::Writer => "Writer",
    }
}

} // verus!
