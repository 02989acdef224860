use kavita_discord_rpc::model::{BookInfo, ChapterInfo, SeriesDetail, SeriesInfo, VolumeInfo};
use kavita_discord_rpc::resolver::{
    copy_opt_text, resolve_chapter, resolve_series, series_from_answer, series_from_last_resort,
    series_from_nested, synthesize_chapter, synthesize_placeholder,
};

fn special(title: Option<&str>, range: &str, cover: Option<&str>) -> ChapterInfo {
    ChapterInfo {
        id: 9,
        range: range.to_string(),
        title: title.map(|t| t.to_string()),
        pages: 10,
        cover_image: cover.map(|c| c.to_string()),
        volume_id: 0,
        number: "0".to_string(),
        file_paths: Vec::new(),
        range_number: None,
    }
}

fn book() -> BookInfo {
    BookInfo {
        series_id: 77,
        volume_id: 5,
        series_name: "Middlemarch".to_string(),
        series_name_number: None,
        chapter_number: "-100000".to_string(),
        pages: 880,
        chapter_title: Some("Book One".to_string()),
    }
}

fn flat() -> SeriesInfo {
    SeriesInfo { id: 3, name: "Emma".to_string(), cover_image: Some("c.png".to_string()) }
}

#[test]
fn a_chapter_made_from_book_information_copies_it() {
    let c = synthesize_chapter(12, book());
    assert_eq!(
        c,
        ChapterInfo {
            id: 12,
            range: "Middlemarch".to_string(),
            title: Some("Book One".to_string()),
            pages: 880,
            cover_image: None,
            volume_id: 5,
            number: "-100000".to_string(),
            file_paths: Vec::new(),
            range_number: None,
        }
    );
}

#[test]
fn a_chapter_made_from_book_information_takes_the_number_of_the_name() {
    let numbered = BookInfo {
        series_name: "3-gatsu no Lion".to_string(),
        series_name_number: Some(3),
        ..book()
    };
    let c = synthesize_chapter(12, numbered);
    assert_eq!(c.range, "3-gatsu no Lion");
    assert_eq!(c.range_number, Some(3));
}

#[test]
fn a_chapter_is_the_decoded_one_before_the_book() {
    let decoded = special(Some("t"), "1", None);
    assert_eq!(resolve_chapter(12, Some(decoded.clone()), Some(book())), Some(decoded.clone()));
    assert_eq!(resolve_chapter(12, Some(decoded.clone()), None), Some(decoded));
    assert_eq!(resolve_chapter(12, None, Some(book())), Some(synthesize_chapter(12, book())));
    assert_eq!(resolve_chapter(12, None, None), None);
}

#[test]
fn a_series_in_the_nested_shape_is_named_by_its_first_special() {
    let detail = SeriesDetail {
        specials: vec![special(Some("Prologue"), "0", Some("p.png"))],
        volumes: Vec::new(),
    };
    let s = resolve_series(3, "Known", None, &Some(detail), None);
    assert_eq!(s.name, "Prologue");
    assert_eq!(s.id, 3);
    assert_eq!(s.cover_image, Some("p.png".to_string()));
}

#[test]
fn a_special_without_title_names_the_series_by_its_range() {
    let detail = SeriesDetail {
        specials: vec![special(None, "SP1", None), special(Some("Later"), "SP2", Some("x"))],
        volumes: Vec::new(),
    };
    let s = series_from_nested(3, "Known", &detail);
    assert_eq!(s, SeriesInfo { id: 3, name: "SP1".to_string(), cover_image: None });
    let empty_title = SeriesDetail { specials: vec![special(Some(""), "SP1", None)], volumes: Vec::new() };
    assert_eq!(series_from_nested(3, "Known", &empty_title).name, "");
}

#[test]
fn a_nested_shape_without_specials_uses_the_known_name_or_a_placeholder() {
    let detail = SeriesDetail {
        specials: Vec::new(),
        volumes: vec![VolumeInfo { id: 1, number: 1, name: None }],
    };
    assert_eq!(
        series_from_nested(3, "Known", &detail),
        SeriesInfo { id: 3, name: "Known".to_string(), cover_image: None }
    );
    assert_eq!(
        series_from_nested(-3, "", &detail),
        SeriesInfo { id: -3, name: "Series -3".to_string(), cover_image: None }
    );
}

#[test]
fn the_flat_shape_comes_first() {
    let detail = SeriesDetail { specials: vec![special(Some("Prologue"), "0", None)], volumes: Vec::new() };
    assert_eq!(series_from_answer(9, "Known", Some(flat()), &Some(detail.clone())), Some(flat()));
    assert_eq!(resolve_series(9, "Known", Some(flat()), &Some(detail), Some(book())), flat());
    assert_eq!(series_from_answer(9, "Known", None, &None), None);
}

#[test]
fn the_book_and_then_the_placeholder_are_the_last_resort() {
    assert_eq!(
        resolve_series(3, "Known", None, &None, Some(book())),
        SeriesInfo { id: 77, name: "Middlemarch".to_string(), cover_image: None }
    );
    assert_eq!(
        resolve_series(3, "Known", None, &None, None),
        SeriesInfo { id: 3, name: "Series 3".to_string(), cover_image: None }
    );
    assert_eq!(series_from_last_resort(3, None), synthesize_placeholder(3));
    assert_eq!(synthesize_placeholder(0).name, "Series 0");
}

#[test]
fn copy_opt_text_copies() {
    assert_eq!(copy_opt_text(&Some("a".to_string())), Some("a".to_string()));
    assert_eq!(copy_opt_text(&None), None);
}
