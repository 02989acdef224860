//! The records that the server's answers are decoded into, and the settings
//! that steer the engine. Each record has a view in which every text is the
//! sequence of its characters; the contracts of the crate speak of the views.

use vstd::prelude::*;

verus! {

/// The numbering token of a unit that is no numbered chapter: a book, or a
/// volume that is one file.
pub open spec fn unnumbered_token() -> Seq<char> {
    "-100000"@
}

/// The characters of an optional text.
pub open spec fn opt_text(t: Option<String>) -> Option<Seq<char>> {
    match t {
        Some(s) => Some(s@),
        None => None,
    }
}

/// The characters of each text of a list.
pub open spec fn texts(list: Seq<String>) -> Seq<Seq<char>> {
    list.map_values(|s: String| s@)
}

/// The characters of each text of an optional list.
pub open spec fn opt_texts(list: Option<Vec<String>>) -> Option<Seq<Seq<char>>> {
    match list {
        Some(l) => Some(texts(l@)),
        None => None,
    }
}

/// The numbers of an optional list.
pub open spec fn opt_numbers(list: Option<Vec<i32>>) -> Option<Seq<i32>> {
    match list {
        Some(l) => Some(l@),
        None => None,
    }
}

/// One entry of the reading history.
#[derive(Clone, Debug, PartialEq, Eq)]
pub struct ReadingEvent {
    pub series_id: i32,
    pub series_name: String,
    /// The moment of reading in the server's local time; events are ordered by it.
    pub read_date: String,
    /// The moment of reading in UTC; the age of an event is measured from it.
    pub read_date_utc: String,
    pub chapter_id: i32,
}

pub struct ReadingEventView {
    pub series_id: i32,
    pub series_name: Seq<char>,
    pub read_date: Seq<char>,
    pub read_date_utc: Seq<char>,
    pub chapter_id: i32,
}

impl View for ReadingEvent {
    type V = ReadingEventView;

    open spec fn view(&self) -> ReadingEventView {
        ReadingEventView {
            series_id: self.series_id,
            series_name: self.series_name@,
            read_date: self.read_date@,
            read_date_utc: self.read_date_utc@,
            chapter_id: self.chapter_id,
        }
    }
}

/// The views of a batch of events.
pub open spec fn events_view(events: Seq<ReadingEvent>) -> Seq<ReadingEventView> {
    events.map_values(|e: ReadingEvent| e@)
}

/// The reader's position in a chapter.
#[derive(Clone, Copy, Debug, PartialEq, Eq)]
pub struct ProgressRecord {
    pub chapter_id: i32,
    pub page_num: i32,
    pub library_id: i32,
}

/// A chapter, or whatever unit the server files under a chapter id.
#[derive(Clone, Debug, PartialEq, Eq)]
pub struct ChapterInfo {
    pub id: i32,
    /// The range the unit covers, as the server displays it.
    pub range: String,
    pub title: Option<String>,
    pub pages: i32,
    pub cover_image: Option<String>,
    pub volume_id: i32,
    /// The numbering token; see [`unnumbered_token`].
    pub number: String,
    /// The paths of the unit's files, empty where the server named none.
    pub file_paths: Vec<String>,
    /// The whole part of the number that `range` starts with, where it starts
    /// with one.
    pub range_number: Option<i32>,
}

pub struct ChapterInfoView {
    pub id: i32,
    pub range: Seq<char>,
    pub title: Option<Seq<char>>,
    pub pages: i32,
    pub cover_image: Option<Seq<char>>,
    pub volume_id: i32,
    pub number: Seq<char>,
    pub file_paths: Seq<Seq<char>>,
    pub range_number: Option<i32>,
}

impl View for ChapterInfo {
    type V = ChapterInfoView;

    open spec fn view(&self) -> ChapterInfoView {
        ChapterInfoView {
            id: self.id,
            range: self.range@,
            title: opt_text(self.title),
            pages: self.pages,
            cover_image: opt_text(self.cover_image),
            volume_id: self.volume_id,
            number: self.number@,
            file_paths: texts(self.file_paths@),
            range_number: self.range_number,
        }
    }
}

/// A volume of a series.
#[derive(Clone, Debug, PartialEq, Eq)]
pub struct VolumeInfo {
    pub id: i32,
    pub number: i32,
    pub name: Option<String>,
}

pub struct VolumeInfoView {
    pub id: i32,
    pub number: i32,
    pub name: Option<Seq<char>>,
}

impl View for VolumeInfo {
    type V = VolumeInfoView;

    open spec fn view(&self) -> VolumeInfoView {
        VolumeInfoView { id: self.id, number: self.number, name: opt_text(self.name) }
    }
}

/// A series in its flat, summary shape: the one shape the engine works on.
#[derive(Clone, Debug, PartialEq, Eq)]
pub struct SeriesInfo {
    pub id: i32,
    pub name: String,
    pub cover_image: Option<String>,
}

pub struct SeriesInfoView {
    pub id: i32,
    pub name: Seq<char>,
    pub cover_image: Option<Seq<char>>,
}

impl View for SeriesInfo {
    type V = SeriesInfoView;

    open spec fn view(&self) -> SeriesInfoView {
        SeriesInfoView { id: self.id, name: self.name@, cover_image: opt_text(self.cover_image) }
    }
}

/// A series in its nested, detail shape.
#[derive(Clone, Debug, PartialEq, Eq)]
pub struct SeriesDetail {
    pub specials: Vec<ChapterInfo>,
    pub volumes: Vec<VolumeInfo>,
}

pub struct SeriesDetailView {
    pub specials: Seq<ChapterInfoView>,
    pub volumes: Seq<VolumeInfoView>,
}

impl View for SeriesDetail {
    type V = SeriesDetailView;

    open spec fn view(&self) -> SeriesDetailView {
        SeriesDetailView {
            specials: self.specials@.map_values(|c: ChapterInfo| c@),
            volumes: self.volumes@.map_values(|v: VolumeInfo| v@),
        }
    }
}

/// The view of an optional detail.
pub open spec fn opt_detail(detail: Option<SeriesDetail>) -> Option<SeriesDetailView> {
    match detail {
        Some(d) => Some(d@),
        None => None,
    }
}

/// What the book endpoint tells of a chapter id.
#[derive(Clone, Debug, PartialEq, Eq)]
pub struct BookInfo {
    pub series_id: i32,
    pub volume_id: i32,
    pub series_name: String,
    /// The whole part of the number that `series_name` starts with, where it
    /// starts with one.
    pub series_name_number: Option<i32>,
    pub chapter_number: String,
    pub pages: i32,
    pub chapter_title: Option<String>,
}

pub struct BookInfoView {
    pub series_id: i32,
    pub volume_id: i32,
    pub series_name: Seq<char>,
    pub series_name_number: Option<i32>,
    pub chapter_number: Seq<char>,
    pub pages: i32,
    pub chapter_title: Option<Seq<char>>,
}

impl View for BookInfo {
    type V = BookInfoView;

    open spec fn view(&self) -> BookInfoView {
        BookInfoView {
            series_id: self.series_id,
            volume_id: self.volume_id,
            series_name: self.series_name@,
            series_name_number: self.series_name_number,
            chapter_number: self.chapter_number@,
            pages: self.pages,
            chapter_title: opt_text(self.chapter_title),
        }
    }
}

/// The titles of the tags and genres of a series.
#[derive(Clone, Debug, PartialEq, Eq)]
pub struct SeriesMetadata {
    pub tags: Vec<String>,
    pub genres: Vec<String>,
}

pub struct SeriesMetadataView {
    pub tags: Seq<Seq<char>>,
    pub genres: Seq<Seq<char>>,
}

impl View for SeriesMetadata {
    type V = SeriesMetadataView;

    open spec fn view(&self) -> SeriesMetadataView {
        SeriesMetadataView { tags: texts(self.tags@), genres: texts(self.genres@) }
    }
}

/// The view of optional metadata.
pub open spec fn opt_metadata(metadata: Option<SeriesMetadata>) -> Option<SeriesMetadataView> {
    match metadata {
        Some(m) => Some(m@),
        None => None,
    }
}

/// The settings the engine reads.
#[derive(Clone, Debug, PartialEq, Eq)]
pub struct Config {
    /// The address of the server, without a trailing slash.
    pub kavita_url: String,
    /// The key that image addresses carry.
    pub kavita_api_key: String,
    /// Whether the status tells the page; absent means no.
    pub show_page_numbers: Option<bool>,
    pub blacklisted_series_ids: Option<Vec<i32>>,
    pub blacklisted_series_names: Option<Vec<String>>,
    pub blacklisted_tags: Option<Vec<String>>,
    pub blacklisted_genres: Option<Vec<String>>,
    pub blacklisted_library_ids: Option<Vec<i32>>,
    pub inactivity_timeout_minutes: Option<u64>,
}

pub struct ConfigView {
    pub kavita_url: Seq<char>,
    pub kavita_api_key: Seq<char>,
    pub show_page_numbers: Option<bool>,
    pub blacklisted_series_ids: Option<Seq<i32>>,
    pub blacklisted_series_names: Option<Seq<Seq<char>>>,
    pub blacklisted_tags: Option<Seq<Seq<char>>>,
    pub blacklisted_genres: Option<Seq<Seq<char>>>,
    pub blacklisted_library_ids: Option<Seq<i32>>,
    pub inactivity_timeout_minutes: Option<u64>,
}

impl View for Config {
    type V = ConfigView;

    open spec fn view(&self) -> ConfigView {
        ConfigView {
            kavita_url: self.kavita_url@,
            kavita_api_key: self.kavita_api_key@,
            show_page_numbers: self.show_page_numbers,
            blacklisted_series_ids: opt_numbers(self.blacklisted_series_ids),
            blacklisted_series_names: opt_texts(self.blacklisted_series_names),
            blacklisted_tags: opt_texts(self.blacklisted_tags),
            blacklisted_genres: opt_texts(self.blacklisted_genres),
            blacklisted_library_ids: opt_numbers(self.blacklisted_library_ids),
            inactivity_timeout_minutes: self.inactivity_timeout_minutes,
        }
    }
}

impl ConfigView {
    /// Whether the status tells the page.
    pub open spec fn shows_pages(self) -> bool {
        self.show_page_numbers == Some(true)
    }

    /// The configured timeout in minutes, or `default` where none is set.
    pub open spec fn timeout_or(self, default: u64) -> u64 {
        match self.inactivity_timeout_minutes {
            Some(m) => m,
            None => default,
        }
    }
}

impl Config {
    /// Whether the status tells the page.
    pub fn shows_pages(&self) -> (shown: bool)
        ensures
            shown == self@.shows_pages(),
    {
        match self.show_page_numbers {
            Some(b) => b,
            None => false,
        }
    }

    /// The configured timeout in minutes, or `default` where none is set.
    pub fn timeout_or(&self, default: u64) -> (minutes: u64)
        ensures
            minutes == self@.timeout_or(default),
    {
        match self.inactivity_timeout_minutes {
            Some(m) => m,
            None => default,
        }
    }
}

} // verus!
