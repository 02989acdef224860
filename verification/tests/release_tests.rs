use kavita_discord_rpc::release::{
    release_standing, standing_from_order, strip_leading_v, Standing,
};

#[test]
fn a_newer_release_leaves_the_running_version_behind() {
    assert_eq!(release_standing("1.2.3", "v1.3.0"), Standing::Behind);
    assert_eq!(release_standing("1.2.3", "1.2.4"), Standing::Behind);
    assert_eq!(release_standing("1.9.0", "1.10.0"), Standing::Behind);
    assert_eq!(release_standing("1.0.0-alpha", "1.0.0"), Standing::Behind);
}

#[test]
fn the_same_version_is_current_with_or_without_the_letter() {
    assert_eq!(release_standing("1.2.3", "v1.2.3"), Standing::Current);
    assert_eq!(release_standing("v1.2.3", "1.2.3"), Standing::Current);
    assert_eq!(release_standing("vv1.2.3", "v1.2.3"), Standing::Current);
}

#[test]
fn an_older_release_leaves_the_running_version_ahead() {
    assert_eq!(release_standing("2.0.0", "v1.9.9"), Standing::Ahead);
    assert_eq!(release_standing("1.0.0", "v1.0.0-rc.1"), Standing::Ahead);
}

#[test]
fn a_text_that_is_no_version_tells_nothing() {
    assert_eq!(release_standing("1.2.3", "latest"), Standing::Unknown);
    assert_eq!(release_standing("", "1.2.3"), Standing::Unknown);
    assert_eq!(release_standing("1.2", "1.2.3"), Standing::Unknown);
    assert_eq!(release_standing("1.2.3", "V1.2.3"), Standing::Unknown);
    assert_eq!(release_standing("v", "v"), Standing::Unknown);
}

#[test]
fn strip_leading_v_takes_every_leading_letter() {
    assert_eq!(strip_leading_v("v1.2.3"), "1.2.3");
    assert_eq!(strip_leading_v("vvv1"), "1");
    assert_eq!(strip_leading_v("1.2.3v"), "1.2.3v");
    assert_eq!(strip_leading_v("1v2"), "1v2");
    assert_eq!(strip_leading_v("v"), "");
    assert_eq!(strip_leading_v(""), "");
    assert_eq!(strip_leading_v("V1"), "V1");
}

#[test]
fn the_sign_of_an_order_decides_the_standing() {
    assert_eq!(standing_from_order(Some(-1)), Standing::Behind);
    assert_eq!(standing_from_order(Some(i8::MIN)), Standing::Behind);
    assert_eq!(standing_from_order(Some(0)), Standing::Current);
    assert_eq!(standing_from_order(Some(1)), Standing::Ahead);
    assert_eq!(standing_from_order(Some(i8::MAX)), Standing::Ahead);
    assert_eq!(standing_from_order(None), Standing::Unknown);
}
