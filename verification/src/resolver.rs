//! The fallback chains that turn the server's answers, in whatever shape they
//! come, into one chapter record and one series record.
//!
//! A chapter is taken from the chapter endpoint where its answer decodes,
//! else made up from the book endpoint. A series is taken from the flat shape
//! where the answer has it, else from the nested shape, else from the book
//! endpoint, else it is a placeholder: resolving a series never fails.

use crate::model::{
    opt_detail, opt_text, BookInfo, BookInfoView, ChapterInfo, ChapterInfoView, SeriesDetail,
    SeriesDetailView, SeriesInfo, SeriesInfoView,
};
use crate::text::{decimal, push_decimal};
use vstd::prelude::*;

verus! {

/// The view of an optional series.
pub open spec fn opt_series(series: Option<SeriesInfo>) -> Option<SeriesInfoView> {
    match series {
        Some(s) => Some(s@),
        None => None,
    }
}

/// The view of an optional chapter.
pub open spec fn opt_chapter(chapter: Option<ChapterInfo>) -> Option<ChapterInfoView> {
    match chapter {
        Some(c) => Some(c@),
        None => None,
    }
}

/// The view of optional book information.
pub open spec fn opt_book(book: Option<BookInfo>) -> Option<BookInfoView> {
    match book {
        Some(b) => Some(b@),
        None => None,
    }
}

/// The chapter made up from book information: title, pages, volume and
/// numbering token are the book's; its range is the name of the series, and
/// the number of its range is the number that name starts with; it has no
/// cover and no files.
pub open spec fn chapter_from_book(chapter_id: i32, book: BookInfoView) -> ChapterInfoView {
    ChapterInfoView {
        id: chapter_id,
        range: book.series_name,
        title: book.chapter_title,
        pages: book.pages,
        cover_image: None,
        volume_id: book.volume_id,
        number: book.chapter_number,
        file_paths: Seq::empty(),
        range_number: book.series_name_number,
    }
}

/// The chapter that the fallback chain gives: the decoded one, else the one
/// made up from book information, else none.
pub open spec fn resolved_chapter(
    chapter_id: i32,
    decoded: Option<ChapterInfoView>,
    book: Option<BookInfoView>,
) -> Option<ChapterInfoView> {
    match decoded {
        Some(c) => Some(c),
        None => match book {
            Some(b) => Some(chapter_from_book(chapter_id, b)),
            None => None,
        },
    }
}

/// The name of a series of which only the id is known.
pub open spec fn placeholder_name(series_id: i32) -> Seq<char> {
    "Series "@ + decimal(series_id as int)
}

/// The series of which only the id is known.
pub open spec fn placeholder_series(series_id: i32) -> SeriesInfoView {
    SeriesInfoView { id: series_id, name: placeholder_name(series_id), cover_image: None }
}

/// The series that the nested shape gives. Its name is the title of the
/// first special, or that special's range where it has no title; without a
/// special it is the name that the history gave, or the placeholder name where
/// that is empty. Its cover is that of the first special.
pub open spec fn series_from_detail(
    series_id: i32,
    known_name: Seq<char>,
    detail: SeriesDetailView,
) -> SeriesInfoView {
    if detail.specials.len() > 0 {
        let special = detail.specials[0];
        SeriesInfoView {
            id: series_id,
            name: match special.title {
                Some(t) => t,
                None => special.range,
            },
            cover_image: special.cover_image,
        }
    } else {
        SeriesInfoView {
            id: series_id,
            name: if known_name.len() > 0 {
                known_name
            } else {
                placeholder_name(series_id)
            },
            cover_image: None,
        }
    }
}

/// The series made up from book information.
pub open spec fn series_from_book(book: BookInfoView) -> SeriesInfoView {
    SeriesInfoView { id: book.series_id, name: book.series_name, cover_image: None }
}

/// The series that the two shapes of the series answer give: the flat one
/// first, then the nested one. `None` where the answer had neither.
pub open spec fn series_from_shapes(
    series_id: i32,
    known_name: Seq<char>,
    flat: Option<SeriesInfoView>,
    detail: Option<SeriesDetailView>,
) -> Option<SeriesInfoView> {
    match flat {
        Some(s) => Some(s),
        None => match detail {
            Some(d) => Some(series_from_detail(series_id, known_name, d)),
            None => None,
        },
    }
}

/// The series where the series answer had neither shape: from book
/// information, or the placeholder.
pub open spec fn series_of_last_resort(series_id: i32, book: Option<BookInfoView>) -> SeriesInfoView {
    match book {
        Some(b) => series_from_book(b),
        None => placeholder_series(series_id),
    }
}

/// The series that the whole fallback chain gives.
pub open spec fn resolved_series(
    series_id: i32,
    known_name: Seq<char>,
    flat: Option<SeriesInfoView>,
    detail: Option<SeriesDetailView>,
    book: Option<BookInfoView>,
) -> SeriesInfoView {
    match series_from_shapes(series_id, known_name, flat, detail) {
        Some(s) => s,
        None => series_of_last_resort(series_id, book),
    }
}

/// A copy of an optional text.
pub fn copy_opt_text(t: &Option<String>) -> (copy: Option<String>)
    ensures
        opt_text(copy) == opt_text(*t),
{
    match t {
        Some(s) => Some(s.clone()),
        None => None,
    }
}

/// Makes up a chapter from book information.
pub fn synthesize_chapter(chapter_id: i32, book: BookInfo) -> (chapter: ChapterInfo)
    ensures
        chapter@ == chapter_from_book(chapter_id, book@),
{
    let chapter = ChapterInfo {
        id: chapter_id,
        range: book.series_name,
        title: book.chapter_title,
        pages: book.pages,
        cover_image: None,
        volume_id: book.volume_id,
        number: book.chapter_number,
        file_paths: Vec::new(),
        range_number: book.series_name_number,
    };
    assert(chapter@.file_paths =~= Seq::empty());
    chapter
}

/// Resolves a chapter: the decoded record, else the one made up from book
/// information. `None` where both are missing: the chapter cannot be had.
pub fn resolve_chapter(chapter_id: i32, decoded: Option<ChapterInfo>, book: Option<BookInfo>) -> (chapter:
    Option<ChapterInfo>)
    ensures
        opt_chapter(chapter) == resolved_chapter(chapter_id, opt_chapter(decoded), opt_book(book)),
{
    match decoded {
        Some(c) => Some(c),
        None => match book {
            Some(b) => Some(synthesize_chapter(chapter_id, b)),
            None => None,
        },
    }
}

/// The name "Series N".
fn placeholder_name_of(series_id: i32) -> (name: String)
    ensures
        name@ == placeholder_name(series_id),
{
    let mut name = String::from_str("Series ");
    push_decimal(&mut name, series_id as i64);
    name
}

/// The series of which only the id is known.
pub fn synthesize_placeholder(series_id: i32) -> (series: SeriesInfo)
    ensures
        series@ == placeholder_series(series_id),
{
    SeriesInfo { id: series_id, name: placeholder_name_of(series_id), cover_image: None }
}

/// Derives a series from the nested shape of the series answer.
pub fn series_from_nested(series_id: i32, known_name: &str, detail: &SeriesDetail) -> (series:
    SeriesInfo)
    ensures
        series@ == series_from_detail(series_id, known_name@, detail@),
{
    if detail.specials.len() > 0 {
        let special = &detail.specials[0];
        assert(detail@.specials[0] == detail.specials@[0]@);
        SeriesInfo {
            id: series_id,
            name: match &special.title {
                Some(t) => t.clone(),
                None => special.range.clone(),
            },
            cover_image: copy_opt_text(&special.cover_image),
        }
    } else {
        SeriesInfo {
            id: series_id,
            name: if known_name.unicode_len() > 0 {
                String::from_str(known_name)
            } else {
                placeholder_name_of(series_id)
            },
            cover_image: None,
        }
    }
}

/// Takes a series from the shapes of the series answer: flat first, then
/// nested. `None` where the answer had neither, and the book endpoint is to be
/// asked.
pub fn series_from_answer(
    series_id: i32,
    known_name: &str,
    flat: Option<SeriesInfo>,
    detail: &Option<SeriesDetail>,
) -> (series: Option<SeriesInfo>)
    ensures
        opt_series(series) == series_from_shapes(
            series_id,
            known_name@,
            opt_series(flat),
            opt_detail(*detail),
        ),
{
    match flat {
        Some(s) => Some(s),
        None => match detail {
            Some(d) => Some(series_from_nested(series_id, known_name, d)),
            None => None,
        },
    }
}

/// The last resort for a series: from book information, or the placeholder.
pub fn series_from_last_resort(series_id: i32, book: Option<BookInfo>) -> (series: SeriesInfo)
    ensures
        series@ == series_of_last_resort(series_id, opt_book(book)),
{
    match book {
        Some(b) => SeriesInfo { id: b.series_id, name: b.series_name, cover_image: None },
        None => synthesize_placeholder(series_id),
    }
}

/// Resolves a series through the whole chain. It always gives a series.
pub fn resolve_series(
    series_id: i32,
    known_name: &str,
    flat: Option<SeriesInfo>,
    detail: &Option<SeriesDetail>,
    book: Option<BookInfo>,
) -> (series: SeriesInfo)
    ensures
        series@ == resolved_series(
            series_id,
            known_name@,
            opt_series(flat),
            opt_detail(*detail),
            opt_book(book),
        ),
{
    match series_from_answer(series_id, known_name, flat, detail) {
        Some(s) => s,
        None => series_from_last_resort(series_id, book),
    }
}

} // verus!
