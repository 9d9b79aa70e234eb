//! Canonical, provider-agnostic media model: every upstream adapter maps its
//! native payloads into these types, so that callers can treat heterogeneous
//! catalogs uniformly.
use vstd::prelude::*;

verus! {

/// Media type of a record; fixed per adapter instance.
#[derive(Clone, Copy, Debug, PartialEq, Eq)]
pub enum MetadataLot {
    AudioBook,
    Book,
}

/// Which upstream catalog produced a record.
#[derive(Clone, Copy, Debug, PartialEq, Eq)]
pub enum MetadataSource {
    Audible,
    Openlibrary,
}

/// A node of an upstream taxonomy or contributor list that only carries a
/// display name.
#[derive(Clone, Debug, PartialEq, Eq)]
pub struct NamedObject {
    pub name: String,
}

/// One contributor to a work. The same person may appear twice under two
/// roles; exact duplicates are not deduplicated either.
#[derive(Clone, Debug, PartialEq, Eq)]
pub struct MetadataCreator {
    pub name: String,
    pub role: String,
    pub image_urls: Vec<String>,
}

/// Where an image lives: a plain remote URL, or a content-addressed storage
/// key.
#[derive(Clone, Debug, PartialEq, Eq)]
pub enum MetadataImageUrl {
    S3(String),
    Url(String),
}

/// What an image depicts.
#[derive(Clone, Copy, Debug, PartialEq, Eq)]
pub enum MetadataImageLot {
    Backdrop,
    Poster,
}

/// One image attached to a record.
#[derive(Clone, Debug, PartialEq, Eq)]
pub struct MetadataImage {
    pub url: MetadataImageUrl,
    pub lot: MetadataImageLot,
}

/// A calendar date held as plain year, month and day numbers.
#[derive(Clone, Copy, Debug, PartialEq, Eq)]
pub struct MediaDate {
    pub year: i32,
    pub month: u32,
    pub day: u32,
}

/// Fields specific to audio works.
#[derive(Clone, Copy, Debug, PartialEq, Eq)]
pub struct AudioBookSpecifics {
    pub runtime: Option<i32>,
}

/// Fields specific to printed works.
#[derive(Clone, Copy, Debug, PartialEq, Eq)]
pub struct BookSpecifics {
    pub pages: Option<i32>,
}

/// Tagged variant carrying the fields unique to one media kind; the variant
/// populated always matches the record's `lot`.
#[derive(Clone, Copy, Debug, PartialEq, Eq)]
pub enum MediaSpecifics {
    AudioBook(AudioBookSpecifics),
    Book(BookSpecifics),
}

/// The canonical media record every adapter produces from one upstream item.
#[derive(Clone, Debug, PartialEq, Eq)]
pub struct MediaDetails {
    pub identifier: String,
    pub lot: MetadataLot,
    pub source: MetadataSource,
    pub title: String,
    pub description: Option<String>,
    pub creators: Vec<MetadataCreator>,
    pub genres: Vec<String>,
    pub publish_year: Option<i32>,
    pub publish_date: Option<MediaDate>,
    pub specifics: MediaSpecifics,
    pub images: Vec<MetadataImage>,
}

/// The lighter projection used in list views: only remote-URL images are
/// allowed here.
#[derive(Clone, Debug, PartialEq, Eq)]
pub struct MediaSearchItem {
    pub identifier: String,
    pub lot: MetadataLot,
    pub title: String,
    pub images: Vec<String>,
    pub publish_year: Option<i32>,
}

/// The paginated search-result envelope.
#[derive(Clone, Debug, PartialEq, Eq)]
pub struct MediaSearchResults {
    pub total: i32,
    pub items: Vec<MediaSearchItem>,
    pub next_page: Option<i32>,
}

/// The failure taxonomy of a provider adapter.
#[derive(Clone, Copy, Debug, PartialEq, Eq)]
pub enum ProviderError {
    /// An unsupported locale code at adapter construction time.
    Configuration,
    /// A network failure or a non-success upstream HTTP status.
    UpstreamTransport,
    /// An upstream body that does not have the expected shape.
    UpstreamShape,
    /// The upstream signalled that the requested item does not exist.
    NotFound,
    /// An invariant the upstream is assumed to uphold was violated.
    NormalizationAssertion,
}

/// The view of an optional owned string, for contracts.
pub open spec fn opt_string_view(o: Option<String>) -> Option<Seq<char>> {
    match o {
        Option::Some(s) => Option::Some(s@),
        Option::None => Option::None,
    }
}

/// The display names of a sequence of named nodes, as character sequences.
pub open spec fn names_view(v: Seq<NamedObject>) -> Seq<Seq<char>> {
    v.map_values(|n: NamedObject| n.name@)
}

/// The display names of an optional contributor list; an absent list reads as
/// empty.
pub open spec fn opt_names_view(o: Option<Vec<NamedObject>>) -> Seq<Seq<char>> {
    match o {
        Option::Some(v) => names_view(v@),
        Option::None => Seq::empty(),
    }
}

/// A well-formed calendar date: month in range and day within the month,
/// February honouring leap years.
pub open spec fn valid_media_date(d: MediaDate) -> bool {
    &&& 1 <= d.month <= 12
    &&& 1 <= d.day <= days_in_month(d.year as int, d.month as int)
    &&& 0 <= d.year <= 9999
}

/// Leap years in the proleptic Gregorian calendar.
pub open spec fn is_leap_year(y: int) -> bool {
    (y % 4 == 0 && y % 100 != 0) || y % 400 == 0
}

/// Number of days of month `m` of year `y`.
pub open spec fn days_in_month(y: int, m: int) -> int {
    if m == 2 {
        if is_leap_year(y) {
            29
        } else {
            28
        }
    } else if m == 4 || m == 6 || m == 9 || m == 11 {
        30
    } else {
        31
    }
}

} // verus!
