//! The blacklists: which sessions must not be shown.
//!
//! The rules are tried in a fixed order and the first that matches decides:
//! library id, series id, series name, tag, genre. The first three need only
//! what the history and the progress tell; the last two need the metadata of
//! the series, which is fetched only where they are configured and none of
//! the first three has matched.

use crate::model::{
    opt_metadata, opt_numbers, texts, Config, ConfigView, SeriesMetadata, SeriesMetadataView,
};
use crate::text::{contains, contains_ignoring_case, contains_text, lowercase_of};
use vstd::prelude::*;

verus! {

/// The rule that keeps a session from being shown.
#[derive(Clone, Copy, Debug, PartialEq, Eq)]
pub enum Rejection {
    Library,
    SeriesId,
    SeriesName,
    Tag,
    Genre,
}

/// What the rules say before the metadata of the series is known.
#[derive(Clone, Copy, Debug, PartialEq, Eq)]
pub enum Screening {
    /// A rule matched: the session is not shown.
    Rejected(Rejection),
    /// No rule matched so far, and a tag or genre rule is configured.
    NeedsMetadata,
    /// No rule matched and none is left to try.
    Visible,
}

/// An optional list of ids holds `id`.
pub open spec fn lists_id(list: Option<Seq<i32>>, id: i32) -> bool {
    list matches Some(l) && l.contains(id)
}

/// One of `patterns` occurs in `name`, letter case respected.
pub open spec fn some_pattern_occurs(patterns: Seq<Seq<char>>, name: Seq<char>) -> bool {
    exists|i: int| 0 <= i < patterns.len() && contains_text(name, #[trigger] patterns[i])
}

/// One of `patterns` occurs in `title` once both are in lower case.
pub open spec fn some_pattern_occurs_ignoring_case(
    patterns: Seq<Seq<char>>,
    title: Seq<char>,
) -> bool {
    exists|i: int|
        0 <= i < patterns.len() && contains_text(
            lowercase_of(title),
            lowercase_of(#[trigger] patterns[i]),
        )
}

/// One of `titles` has one of `patterns` in it, letter case ignored.
pub open spec fn some_title_matches(patterns: Seq<Seq<char>>, titles: Seq<Seq<char>>) -> bool {
    exists|t: int|
        0 <= t < titles.len() && some_pattern_occurs_ignoring_case(patterns, #[trigger] titles[t])
}

/// The rule, if any, that rejects a session before its metadata is known.
pub open spec fn early_rejection(
    config: ConfigView,
    library_id: i32,
    series_id: i32,
    series_name: Seq<char>,
) -> Option<Rejection> {
    if lists_id(config.blacklisted_library_ids, library_id) {
        Some(Rejection::Library)
    } else if lists_id(config.blacklisted_series_ids, series_id) {
        Some(Rejection::SeriesId)
    } else if config.blacklisted_series_names matches Some(names) && some_pattern_occurs(
        names,
        series_name,
    ) {
        Some(Rejection::SeriesName)
    } else {
        None
    }
}

/// A tag or genre rule is configured.
pub open spec fn wants_metadata(config: ConfigView) -> bool {
    config.blacklisted_tags is Some || config.blacklisted_genres is Some
}

/// What the rules say before the metadata of the series is known.
pub open spec fn screening_of(
    config: ConfigView,
    library_id: i32,
    series_id: i32,
    series_name: Seq<char>,
) -> Screening {
    match early_rejection(config, library_id, series_id, series_name) {
        Some(r) => Screening::Rejected(r),
        None => if wants_metadata(config) {
            Screening::NeedsMetadata
        } else {
            Screening::Visible
        },
    }
}

/// The tag or genre rule, if any, that rejects a series with this metadata.
/// Metadata that could not be had rejects nothing.
pub open spec fn late_rejection(config: ConfigView, metadata: Option<SeriesMetadataView>) -> Option<
    Rejection,
> {
    match metadata {
        None => None,
        Some(m) => if config.blacklisted_tags matches Some(tags) && some_title_matches(
            tags,
            m.tags,
        ) {
            Some(Rejection::Tag)
        } else if config.blacklisted_genres matches Some(genres) && some_title_matches(
            genres,
            m.genres,
        ) {
            Some(Rejection::Genre)
        } else {
            None
        },
    }
}

/// The first rule in priority order that rejects a session, if any does.
pub open spec fn rejection_of(
    config: ConfigView,
    library_id: i32,
    series_id: i32,
    series_name: Seq<char>,
    metadata: Option<SeriesMetadataView>,
) -> Option<Rejection> {
    match early_rejection(config, library_id, series_id, series_name) {
        Some(r) => Some(r),
        None => late_rejection(config, metadata),
    }
}

/// Whether an optional list of ids holds `id`.
fn holds_id(list: &Option<Vec<i32>>, id: i32) -> (held: bool)
    ensures
        held == lists_id(opt_numbers(*list), id),
{
    match list {
        None => false,
        Some(l) => {
            let mut i: usize = 0;
            while i < l.len()
                invariant
                    *list == Some(*l),
                    i <= l.len(),
                    forall|k: int| 0 <= k < i ==> l@[k] != id,
                decreases l.len() - i,
            {
                if l[i] == id {
                    assert(l@[i as int] == id);
                    return true;
                }
                i += 1;
            }
            false
        },
    }
}

/// Whether one of `patterns` occurs in `name`, letter case respected.
fn pattern_occurs(patterns: &Vec<String>, name: &str) -> (found: bool)
    ensures
        found == some_pattern_occurs(texts(patterns@), name@),
{
    let mut i: usize = 0;
    while i < patterns.len()
        invariant
            i <= patterns.len(),
            forall|k: int| 0 <= k < i ==> !contains_text(name@, #[trigger] texts(patterns@)[k]),
        decreases patterns.len() - i,
    {
        assert(texts(patterns@)[i as int] == patterns@[i as int]@);
        if contains(name, patterns[i].as_str()) {
            return true;
        }
        i += 1;
    }
    false
}

/// Whether one of `patterns` occurs in `title`, letter case ignored.
fn pattern_occurs_ignoring_case(patterns: &Vec<String>, title: &str) -> (found: bool)
    ensures
        found == some_pattern_occurs_ignoring_case(texts(patterns@), title@),
{
    let mut i: usize = 0;
    while i < patterns.len()
        invariant
            i <= patterns.len(),
            forall|k: int|
                0 <= k < i ==> !contains_text(
                    lowercase_of(title@),
                    lowercase_of(#[trigger] texts(patterns@)[k]),
                ),
        decreases patterns.len() - i,
    {
        assert(texts(patterns@)[i as int] == patterns@[i as int]@);
        if contains_ignoring_case(title, patterns[i].as_str()) {
            return true;
        }
        i += 1;
    }
    false
}

/// Whether one of `titles` has one of `patterns` in it, letter case ignored.
fn title_matches(patterns: &Vec<String>, titles: &Vec<String>) -> (found: bool)
    ensures
        found == some_title_matches(texts(patterns@), texts(titles@)),
{
    let mut t: usize = 0;
    while t < titles.len()
        invariant
            t <= titles.len(),
            forall|k: int|
                0 <= k < t ==> !some_pattern_occurs_ignoring_case(
                    texts(patterns@),
                    #[trigger] texts(titles@)[k],
                ),
        decreases titles.len() - t,
    {
        assert(texts(titles@)[t as int] == titles@[t as int]@);
        if pattern_occurs_ignoring_case(patterns, titles[t].as_str()) {
            return true;
        }
        t += 1;
    }
    false
}

/// Applies the rules that need no metadata, and says whether metadata is
/// needed to go on.
pub fn screen(config: &Config, library_id: i32, series_id: i32, series_name: &str) -> (s: Screening)
    ensures
        s == screening_of(config@, library_id, series_id, series_name@),
{
    if holds_id(&config.blacklisted_library_ids, library_id) {
        return Screening::Rejected(Rejection::Library);
    }
    if holds_id(&config.blacklisted_series_ids, series_id) {
        return Screening::Rejected(Rejection::SeriesId);
    }
    match &config.blacklisted_series_names {
        Some(names) => {
            if pattern_occurs(names, series_name) {
                return Screening::Rejected(Rejection::SeriesName);
            }
        },
        None => {},
    }
    if config.blacklisted_tags.is_some() || config.blacklisted_genres.is_some() {
        Screening::NeedsMetadata
    } else {
        Screening::Visible
    }
}

/// Applies the tag and genre rules to the metadata of a series.
pub fn screen_metadata(config: &Config, metadata: &Option<SeriesMetadata>) -> (r: Option<Rejection>)
    ensures
        r == late_rejection(config@, opt_metadata(*metadata)),
{
    match metadata {
        None => None,
        Some(m) => {
            match &config.blacklisted_tags {
                Some(tags) => {
                    if title_matches(tags, &m.tags) {
                        return Some(Rejection::Tag);
                    }
                },
                None => {},
            }
            match &config.blacklisted_genres {
                Some(genres) => {
                    if title_matches(genres, &m.genres) {
                        return Some(Rejection::Genre);
                    }
                },
                None => {},
            }
            None
        },
    }
}

/// Whether a session may be shown: no rule rejects it.
pub fn is_visible(
    config: &Config,
    library_id: i32,
    series_id: i32,
    series_name: &str,
    metadata: &Option<SeriesMetadata>,
) -> (visible: bool)
    ensures
        visible == (rejection_of(
            config@,
            library_id,
            series_id,
            series_name@,
            opt_metadata(*metadata),
        ) is None),
{
    match screen(config, library_id, series_id, series_name) {
        Screening::Rejected(_) => false,
        _ => screen_metadata(config, metadata).is_none(),
    }
}

/// A session of a blacklisted series is rejected before any metadata is
/// asked for, whatever its tags and genres are: by the library rule where the
/// library is blacklisted too, else by the series rule.
pub proof fn blacklisted_series_needs_no_metadata(
    config: ConfigView,
    library_id: i32,
    series_id: i32,
    series_name: Seq<char>,
    metadata: Option<SeriesMetadataView>,
)
    requires
        lists_id(config.blacklisted_series_ids, series_id),
    ensures
        screening_of(config, library_id, series_id, series_name) is Rejected,
        screening_of(config, library_id, series_id, series_name) != Screening::NeedsMetadata,
        !lists_id(config.blacklisted_library_ids, library_id) ==> rejection_of(
            config,
            library_id,
            series_id,
            series_name,
            metadata,
        ) == Some(Rejection::SeriesId),
        lists_id(config.blacklisted_library_ids, library_id) ==> rejection_of(
            config,
            library_id,
            series_id,
            series_name,
            metadata,
        ) == Some(Rejection::Library),
{
}

/// The rules are tried in their order: a rule decides only where none before
/// it matches.
pub proof fn rejection_follows_priority(
    config: ConfigView,
    library_id: i32,
    series_id: i32,
    series_name: Seq<char>,
    metadata: Option<SeriesMetadataView>,
)
    ensures
        ({
            let r = rejection_of(config, library_id, series_id, series_name, metadata);
            let by_library = lists_id(config.blacklisted_library_ids, library_id);
            let by_series = lists_id(config.blacklisted_series_ids, series_id);
            let by_name = config.blacklisted_series_names matches Some(names)
                && some_pattern_occurs(names, series_name);
            &&& r == Some(Rejection::Library) <==> by_library
            &&& r == Some(Rejection::SeriesId) <==> !by_library && by_series
            &&& r == Some(Rejection::SeriesName) <==> !by_library && !by_series && by_name
            &&& (r == Some(Rejection::Tag) || r == Some(Rejection::Genre)) ==> !by_library
                && !by_series && !by_name && metadata is Some
        }),
{
}

} // verus!
