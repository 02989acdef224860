//! The session: what is being read right now, put together from the records
//! that a poll resolved.

use crate::classify::{book_mode, classify, known_volume_ids, volume_label, volume_label_of};
use crate::clock::Timestamp;
use crate::model::{
    opt_detail, texts, unnumbered_token, ChapterInfo, ChapterInfoView, ProgressRecord,
    SeriesDetail, SeriesDetailView, SeriesInfo, SeriesInfoView,
};
use crate::text::{nth_segment, same_text, segment};
use vstd::prelude::*;

verus! {

/// Where the picture of a session comes from.
#[derive(Clone, Copy, Debug, PartialEq, Eq)]
pub enum Cover {
    /// The cover of the series with this id.
    Series(i32),
    /// The cover of the chapter with this id.
    Chapter(i32),
    /// No picture.
    Absent,
}

/// What is being read. Two sessions are the same reading when their series
/// id and chapter id agree; nothing else tells them apart.
#[derive(Clone, Debug, PartialEq, Eq)]
pub struct Session {
    pub series_id: i32,
    pub chapter_id: i32,
    /// The name the series is shown under.
    pub series_name: String,
    pub is_book_mode: bool,
    pub current_page: i32,
    pub total_pages: i32,
    /// "Vol. N", or empty where the unit has no volume.
    pub volume_label: String,
    pub author: String,
    /// What follows "Ch." where the unit is shown as a chapter.
    pub chapter_label: String,
    /// Whether the unit has a chapter number.
    pub numbered: bool,
    pub cover: Cover,
    pub resolved_at: Timestamp,
}

pub struct SessionView {
    pub series_id: i32,
    pub chapter_id: i32,
    pub series_name: Seq<char>,
    pub is_book_mode: bool,
    pub current_page: i32,
    pub total_pages: i32,
    pub volume_label: Seq<char>,
    pub author: Seq<char>,
    pub chapter_label: Seq<char>,
    pub numbered: bool,
    pub cover: Cover,
    pub resolved_at: Timestamp,
}

impl View for Session {
    type V = SessionView;

    open spec fn view(&self) -> SessionView {
        SessionView {
            series_id: self.series_id,
            chapter_id: self.chapter_id,
            series_name: self.series_name@,
            is_book_mode: self.is_book_mode,
            current_page: self.current_page,
            total_pages: self.total_pages,
            volume_label: self.volume_label@,
            author: self.author@,
            chapter_label: self.chapter_label@,
            numbered: self.numbered,
            cover: self.cover,
            resolved_at: self.resolved_at,
        }
    }
}

/// The view of an optional session.
pub open spec fn opt_session(session: Option<Session>) -> Option<SessionView> {
    match session {
        Some(s) => Some(s@),
        None => None,
    }
}

impl SessionView {
    /// Two sessions are the same reading.
    pub open spec fn same_reading(self, other: SessionView) -> bool {
        self.series_id == other.series_id && self.chapter_id == other.chapter_id
    }
}

/// The author where none can be told.
pub open spec fn unknown_author() -> Seq<char> {
    "Unknown Author"@
}

/// The author of a unit: the third piece of the path of its first file, the
/// path split at every slash. Where the unit has no file, or the path has
/// fewer than three pieces, the author is unknown.
pub open spec fn author_of(file_paths: Seq<Seq<char>>) -> Seq<char> {
    if file_paths.len() == 0 {
        unknown_author()
    } else {
        match segment(file_paths[0], '/', 2) {
            Some(piece) => piece,
            None => unknown_author(),
        }
    }
}

/// What follows "Ch.": the title of the chapter where it has one that is
/// not empty and differs from the name of the series, else its range.
pub open spec fn chapter_label_of(chapter: ChapterInfoView, series_name: Seq<char>) -> Seq<char> {
    match chapter.title {
        Some(t) => if t.len() > 0 && t != series_name {
            t
        } else {
            chapter.range
        },
        None => chapter.range,
    }
}

/// The picture of a session: the cover of the series where it has one, else
/// that of the chapter where it has one. A cover that is the empty text
/// counts as none.
pub open spec fn cover_of(series: SeriesInfoView, chapter: ChapterInfoView) -> Cover {
    if series.cover_image matches Some(c) && c.len() > 0 {
        Cover::Series(series.id)
    } else if chapter.cover_image matches Some(c) && c.len() > 0 {
        Cover::Chapter(chapter.id)
    } else {
        Cover::Absent
    }
}

/// The session that the resolved records make.
pub open spec fn session_of(
    series_id: i32,
    progress: ProgressRecord,
    chapter: ChapterInfoView,
    series: SeriesInfoView,
    detail: Option<SeriesDetailView>,
    now: Timestamp,
) -> SessionView {
    let is_book = book_mode(chapter.number, chapter.volume_id, known_volume_ids(detail));
    SessionView {
        series_id,
        chapter_id: progress.chapter_id,
        series_name: series.name,
        is_book_mode: is_book,
        current_page: progress.page_num,
        total_pages: chapter.pages,
        volume_label: volume_label_of(chapter, detail, is_book),
        author: author_of(chapter.file_paths),
        chapter_label: chapter_label_of(chapter, series.name),
        numbered: chapter.number != unnumbered_token(),
        cover: cover_of(series, chapter),
        resolved_at: now,
    }
}

/// The author of a unit, from the paths of its files.
pub fn author_hint(file_paths: &Vec<String>) -> (author: String)
    ensures
        author@ == author_of(texts(file_paths@)),
{
    if file_paths.len() == 0 {
        return String::from_str("Unknown Author");
    }
    assert(texts(file_paths@)[0] == file_paths@[0]@);
    match nth_segment(file_paths[0].as_str(), '/', 2) {
        Some(piece) => piece,
        None => String::from_str("Unknown Author"),
    }
}

/// What follows "Ch." for a chapter of a series shown as `series_name`.
pub fn chapter_label(chapter: &ChapterInfo, series_name: &str) -> (label: String)
    ensures
        label@ == chapter_label_of(chapter@, series_name@),
{
    match &chapter.title {
        Some(t) => {
            if t.as_str().unicode_len() > 0 && !same_text(t.as_str(), series_name) {
                t.clone()
            } else {
                chapter.range.clone()
            }
        },
        None => chapter.range.clone(),
    }
}

/// Whether an optional text is there and not empty.
fn is_filled(t: &Option<String>) -> (filled: bool)
    ensures
        filled == (crate::model::opt_text(*t) matches Some(c) && c.len() > 0),
{
    match t {
        Some(s) => s.as_str().unicode_len() > 0,
        None => false,
    }
}

/// Picks the picture of a session.
pub fn select_cover(series: &SeriesInfo, chapter: &ChapterInfo) -> (cover: Cover)
    ensures
        cover == cover_of(series@, chapter@),
{
    if is_filled(&series.cover_image) {
        Cover::Series(series.id)
    } else if is_filled(&chapter.cover_image) {
        Cover::Chapter(chapter.id)
    } else {
        Cover::Absent
    }
}

/// Puts the session together from the records that a poll resolved.
/// `series_id` is the id that the history named; `detail` is the nested shape
/// of the series where the server's answer had it.
pub fn build_session(
    series_id: i32,
    progress: ProgressRecord,
    chapter: &ChapterInfo,
    series: &SeriesInfo,
    detail: &Option<SeriesDetail>,
    now: Timestamp,
) -> (session: Session)
    ensures
        session@ == session_of(series_id, progress, chapter@, series@, opt_detail(*detail), now),
{
    let is_book = classify(chapter, detail);
    Session {
        series_id,
        chapter_id: progress.chapter_id,
        series_name: series.name.clone(),
        is_book_mode: is_book,
        current_page: progress.page_num,
        total_pages: chapter.pages,
        volume_label: volume_label(chapter, detail, is_book),
        author: author_hint(&chapter.file_paths),
        chapter_label: chapter_label(chapter, series.name.as_str()),
        numbered: !same_text(chapter.number.as_str(), "-100000"),
        cover: select_cover(series, chapter),
        resolved_at: now,
    }
}

} // verus!
