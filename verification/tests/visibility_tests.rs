use kavita_discord_rpc::model::{Config, SeriesMetadata};
use kavita_discord_rpc::visibility::{is_visible, screen, screen_metadata, Rejection, Screening};

fn config() -> Config {
    Config {
        kavita_url: "http://kavita.local".to_string(),
        kavita_api_key: "key".to_string(),
        show_page_numbers: None,
        blacklisted_series_ids: None,
        blacklisted_series_names: None,
        blacklisted_tags: None,
        blacklisted_genres: None,
        blacklisted_library_ids: None,
        inactivity_timeout_minutes: None,
    }
}

fn texts(list: &[&str]) -> Vec<String> {
    list.iter().map(|s| s.to_string()).collect()
}

fn metadata(tags: &[&str], genres: &[&str]) -> Option<SeriesMetadata> {
    Some(SeriesMetadata { tags: texts(tags), genres: texts(genres) })
}

#[test]
fn nothing_configured_shows_everything() {
    let c = config();
    assert_eq!(screen(&c, 1, 2, "Emma"), Screening::Visible);
    assert_eq!(screen_metadata(&c, &metadata(&["x"], &["y"])), None);
    assert!(is_visible(&c, 1, 2, "Emma", &None));
}

#[test]
fn each_rule_rejects_on_its_own() {
    let mut c = config();
    c.blacklisted_library_ids = Some(vec![1]);
    assert_eq!(screen(&c, 1, 2, "Emma"), Screening::Rejected(Rejection::Library));
    assert_eq!(screen(&c, 3, 2, "Emma"), Screening::Visible);

    let mut c = config();
    c.blacklisted_series_ids = Some(vec![5, 2]);
    assert_eq!(screen(&c, 1, 2, "Emma"), Screening::Rejected(Rejection::SeriesId));
    assert_eq!(screen(&c, 1, 3, "Emma"), Screening::Visible);

    let mut c = config();
    c.blacklisted_series_names = Some(texts(&["Secret", "mm"]));
    assert_eq!(screen(&c, 1, 2, "Emma"), Screening::Rejected(Rejection::SeriesName));
    assert_eq!(screen(&c, 1, 2, "EMMA"), Screening::Visible);

    let mut c = config();
    c.blacklisted_tags = Some(texts(&["ecchi"]));
    assert_eq!(screen(&c, 1, 2, "Emma"), Screening::NeedsMetadata);
    assert_eq!(screen_metadata(&c, &metadata(&["Drama", "ECCHI-ish"], &[])), Some(Rejection::Tag));
    assert_eq!(screen_metadata(&c, &metadata(&["Drama"], &["Ecchi"])), None);

    let mut c = config();
    c.blacklisted_genres = Some(texts(&["Horror"]));
    assert_eq!(screen(&c, 1, 2, "Emma"), Screening::NeedsMetadata);
    assert_eq!(screen_metadata(&c, &metadata(&["horror"], &["body horror"])), Some(Rejection::Genre));
    assert_eq!(screen_metadata(&c, &metadata(&["horror"], &["Comedy"])), None);
}

#[test]
fn the_first_rule_in_order_decides() {
    let mut c = config();
    c.blacklisted_library_ids = Some(vec![1]);
    c.blacklisted_series_ids = Some(vec![2]);
    c.blacklisted_series_names = Some(texts(&["Emma"]));
    c.blacklisted_tags = Some(texts(&["drama"]));
    c.blacklisted_genres = Some(texts(&["romance"]));
    assert_eq!(screen(&c, 1, 2, "Emma"), Screening::Rejected(Rejection::Library));
    assert_eq!(screen(&c, 9, 2, "Emma"), Screening::Rejected(Rejection::SeriesId));
    assert_eq!(screen(&c, 9, 9, "Emma"), Screening::Rejected(Rejection::SeriesName));
    assert_eq!(screen(&c, 9, 9, "Other"), Screening::NeedsMetadata);
    let m = metadata(&["Drama"], &["Romance"]);
    assert_eq!(screen_metadata(&c, &m), Some(Rejection::Tag));
    assert_eq!(screen_metadata(&c, &metadata(&[], &["Romance"])), Some(Rejection::Genre));
}

#[test]
fn a_blacklisted_series_is_rejected_before_any_metadata() {
    let mut c = config();
    c.blacklisted_series_ids = Some(vec![2]);
    c.blacklisted_tags = Some(texts(&["drama"]));
    assert_eq!(screen(&c, 1, 2, "Emma"), Screening::Rejected(Rejection::SeriesId));
    assert!(!is_visible(&c, 1, 2, "Emma", &metadata(&["Drama"], &[])));
    assert!(!is_visible(&c, 1, 2, "Emma", &None));
}

#[test]
fn an_empty_tag_list_still_asks_for_metadata_and_rejects_nothing() {
    let mut c = config();
    c.blacklisted_tags = Some(Vec::new());
    assert_eq!(screen(&c, 1, 2, "Emma"), Screening::NeedsMetadata);
    assert_eq!(screen_metadata(&c, &metadata(&["Drama"], &[])), None);
    assert!(is_visible(&c, 1, 2, "Emma", &metadata(&["Drama"], &[])));
}

#[test]
fn missing_metadata_rejects_nothing() {
    let mut c = config();
    c.blacklisted_tags = Some(texts(&["drama"]));
    c.blacklisted_genres = Some(texts(&["romance"]));
    assert_eq!(screen_metadata(&c, &None), None);
    assert!(is_visible(&c, 1, 2, "Emma", &None));
    assert!(!is_visible(&c, 1, 2, "Emma", &metadata(&[], &["Dark Romance"])));
}

#[test]
fn an_empty_pattern_matches_every_name() {
    let mut c = config();
    c.blacklisted_series_names = Some(texts(&[""]));
    assert_eq!(screen(&c, 1, 2, "Emma"), Screening::Rejected(Rejection::SeriesName));
}
