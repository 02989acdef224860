use kavita_discord_rpc::clock::Timestamp;
use kavita_discord_rpc::model::{ChapterInfo, ProgressRecord, SeriesDetail, SeriesInfo, VolumeInfo};
use kavita_discord_rpc::session::{
    author_hint, build_session, chapter_label, select_cover, Cover, Session,
};
use kavita_discord_rpc::tracker::TrackerState;

fn chapter() -> ChapterInfo {
    ChapterInfo {
        id: 41,
        range: "12".to_string(),
        title: Some("The Ball".to_string()),
        pages: 30,
        cover_image: Some("ch.png".to_string()),
        volume_id: 7,
        number: "12".to_string(),
        file_paths: vec!["/books/Jane Austen/Emma/ch12.cbz".to_string()],
        range_number: Some(12),
    }
}

fn series() -> SeriesInfo {
    SeriesInfo { id: 3, name: "Emma".to_string(), cover_image: Some("s.png".to_string()) }
}

fn progress() -> ProgressRecord {
    ProgressRecord { chapter_id: 40, page_num: 5, library_id: 1 }
}

fn now() -> Timestamp {
    Timestamp { secs: 1_700_000_000, nanos: 7 }
}

#[test]
fn the_author_is_the_third_piece_of_the_first_path() {
    assert_eq!(author_hint(&vec!["/books/Jane Austen/Emma/e.epub".to_string()]), "Jane Austen");
    assert_eq!(author_hint(&vec!["a/b/c".to_string(), "x/y/z".to_string()]), "c");
    assert_eq!(author_hint(&vec!["a/b".to_string()]), "Unknown Author");
    assert_eq!(author_hint(&vec!["".to_string()]), "Unknown Author");
    assert_eq!(author_hint(&Vec::new()), "Unknown Author");
    assert_eq!(author_hint(&vec!["a/b//d".to_string()]), "");
}

#[test]
fn the_chapter_label_is_the_title_unless_it_says_nothing() {
    let mut c = chapter();
    assert_eq!(chapter_label(&c, "Emma"), "The Ball");
    c.title = Some("Emma".to_string());
    assert_eq!(chapter_label(&c, "Emma"), "12");
    c.title = Some(String::new());
    assert_eq!(chapter_label(&c, "Emma"), "12");
    c.title = None;
    assert_eq!(chapter_label(&c, "Emma"), "12");
}

#[test]
fn the_cover_of_the_series_comes_before_that_of_the_chapter() {
    let mut s = series();
    let mut c = chapter();
    assert_eq!(select_cover(&s, &c), Cover::Series(3));
    s.cover_image = Some(String::new());
    assert_eq!(select_cover(&s, &c), Cover::Chapter(41));
    s.cover_image = None;
    assert_eq!(select_cover(&s, &c), Cover::Chapter(41));
    c.cover_image = Some(String::new());
    assert_eq!(select_cover(&s, &c), Cover::Absent);
    c.cover_image = None;
    assert_eq!(select_cover(&s, &c), Cover::Absent);
}

#[test]
fn a_session_of_a_chapter() {
    let s = build_session(3, progress(), &chapter(), &series(), &None, now());
    assert_eq!(
        s,
        Session {
            series_id: 3,
            chapter_id: 40,
            series_name: "Emma".to_string(),
            is_book_mode: false,
            current_page: 5,
            total_pages: 30,
            volume_label: "Vol. 12".to_string(),
            author: "Jane Austen".to_string(),
            chapter_label: "The Ball".to_string(),
            numbered: true,
            cover: Cover::Series(3),
            resolved_at: now(),
        }
    );
}

#[test]
fn a_session_of_a_volume_that_is_one_file() {
    let mut c = chapter();
    c.number = "-100000".to_string();
    let detail = SeriesDetail {
        specials: Vec::new(),
        volumes: vec![VolumeInfo { id: 7, number: 2, name: Some("Two".to_string()) }],
    };
    let s = build_session(3, progress(), &c, &series(), &Some(detail), now());
    assert!(!s.is_book_mode);
    assert!(!s.numbered);
    assert_eq!(s.volume_label, "Vol. 2");
}

#[test]
fn a_session_of_a_book() {
    let mut c = chapter();
    c.number = "-100000".to_string();
    let s = build_session(3, progress(), &c, &series(), &None, now());
    assert!(s.is_book_mode);
    assert!(!s.numbered);
    assert_eq!(s.volume_label, "");
}

#[test]
fn the_tracker_keeps_a_session_of_the_same_reading_and_takes_its_progress() {
    let first = build_session(3, progress(), &chapter(), &series(), &None, now());
    let tracker = TrackerState::new(Timestamp { secs: 1, nanos: 0 });
    assert!(!tracker.is_reading);
    assert_eq!(tracker.current, None);
    let tracker = tracker.resolve(first.clone(), now());
    assert!(tracker.is_reading);
    assert_eq!(tracker.last_contact, now());
    assert_eq!(tracker.current, Some(first.clone()));

    let mut renamed = series();
    renamed.name = "Emma (new edition)".to_string();
    let later = Timestamp { secs: 1_700_000_015, nanos: 0 };
    let mut moved = progress();
    moved.page_num = 9;
    let second = build_session(3, moved, &chapter(), &renamed, &None, later);
    let tracker = tracker.resolve(second, later);
    let kept = tracker.current.clone().unwrap();
    assert_eq!(kept.series_name, "Emma");
    assert_eq!(kept.current_page, 9);
    assert_eq!(kept.resolved_at, now());
    assert_eq!(tracker.last_contact, later);

    let mut other = progress();
    other.chapter_id = 99;
    let third = build_session(3, other, &chapter(), &renamed, &None, later);
    let tracker = tracker.resolve(third.clone(), later);
    assert_eq!(tracker.current, Some(third));
}

#[test]
fn withdrawing_makes_the_tracker_idle() {
    let s = build_session(3, progress(), &chapter(), &series(), &None, now());
    let reading = TrackerState::new(now()).resolve(s.clone(), now());
    let idle = reading.clone().withdraw(false);
    assert!(!idle.is_reading);
    assert_eq!(idle.current, Some(s));
    let idle = reading.clone().withdraw(true);
    assert!(!idle.is_reading);
    assert_eq!(idle.current, None);
    let forgetful = reading.forget();
    assert!(forgetful.is_reading);
    assert_eq!(forgetful.current, None);
}
