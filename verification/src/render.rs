//! The presence payload: the texts, the picture and the progress bar that a
//! session is shown with.

use crate::model::{opt_text, Config, ConfigView};
use crate::session::{Cover, Session, SessionView};
use crate::text::{decimal, push_decimal, truncate, truncated};
use vstd::prelude::*;

verus! {

/// The most characters any text of a payload has.
pub const TEXT_LIMIT: usize = 100;

/// The seconds a page is taken to need.
pub const SECONDS_PER_PAGE: i64 = 20;

/// What is handed to the presence client.
#[derive(Clone, Debug, PartialEq, Eq)]
pub struct PresencePayload {
    /// The name of the series.
    pub title: String,
    /// Author, unit and page.
    pub state: String,
    /// The text shown over the picture.
    pub tooltip: String,
    /// The address of the picture.
    pub image: Option<String>,
    /// The estimated start of the reading, in seconds since the epoch.
    pub start: Option<i64>,
    /// The estimated end of the reading, in seconds since the epoch.
    pub end: Option<i64>,
}

pub struct PresencePayloadView {
    pub title: Seq<char>,
    pub state: Seq<char>,
    pub tooltip: Seq<char>,
    pub image: Option<Seq<char>>,
    pub start: Option<i64>,
    pub end: Option<i64>,
}

impl View for PresencePayload {
    type V = PresencePayloadView;

    open spec fn view(&self) -> PresencePayloadView {
        PresencePayloadView {
            title: self.title@,
            state: self.state@,
            tooltip: self.tooltip@,
            image: opt_text(self.image),
            start: self.start,
            end: self.end,
        }
    }
}

/// "Page P of N".
pub open spec fn page_text(page: int, total: int) -> Seq<char> {
    "Page "@ + decimal(page) + " of "@ + decimal(total)
}

/// The page, led by a separator, where pages are shown; else nothing.
pub open spec fn page_suffix(show_pages: bool, page: int, total: int) -> Seq<char> {
    if show_pages {
        " - "@ + page_text(page, total)
    } else {
        Seq::empty()
    }
}

/// The state text of a session before it is cut to length. A book shows its
/// author; a volume that is one file shows author and volume; a chapter shows
/// author and "Ch." with its label. The page follows where pages are shown.
pub open spec fn state_text(s: SessionView, show_pages: bool) -> Seq<char> {
    let suffix = page_suffix(show_pages, s.current_page as int, s.total_pages as int);
    if s.is_book_mode {
        s.author + suffix
    } else if !s.numbered && s.volume_label.len() > 0 {
        s.author + " - "@ + s.volume_label + suffix
    } else {
        s.author + " - Ch. "@ + s.chapter_label + suffix
    }
}

/// The address of the picture of a session.
pub open spec fn image_address(config: ConfigView, cover: Cover) -> Option<Seq<char>> {
    match cover {
        Cover::Series(id) => Some(
            config.kavita_url + "/api/Image/series-cover?seriesId="@ + decimal(id as int)
                + "&apiKey="@ + config.kavita_api_key,
        ),
        Cover::Chapter(id) => Some(
            config.kavita_url + "/api/Image/chapter-cover?chapterId="@ + decimal(id as int)
                + "&apiKey="@ + config.kavita_api_key,
        ),
        Cover::Absent => None,
    }
}

/// The estimated start of a reading: twenty seconds back for every page read.
pub open spec fn start_of(now: int, page: int) -> int {
    now - page * 20
}

/// The estimated end of a reading: twenty seconds on for every page left.
pub open spec fn end_of(now: int, page: int, total: int) -> int {
    now + 20 * (total - page)
}

/// Whether a payload carries the bounds of the progress bar: the clock was
/// read, it stands after the epoch, and both bounds are seconds that a
/// payload can hold.
pub open spec fn has_bounds(now: Option<i64>, page: int, total: int) -> bool {
    &&& now matches Some(n)
    &&& n > 0
    &&& i64::MIN <= start_of(n as int, page) <= i64::MAX
    &&& i64::MIN <= end_of(n as int, page, total) <= i64::MAX
}

/// The payload that a session is shown with.
pub open spec fn payload_of(s: SessionView, config: ConfigView, now: Option<i64>) -> PresencePayloadView {
    let title = truncated(s.series_name, TEXT_LIMIT as nat);
    let state = truncated(state_text(s, config.shows_pages()), TEXT_LIMIT as nat);
    let bounded = has_bounds(now, s.current_page as int, s.total_pages as int);
    PresencePayloadView {
        title,
        state,
        tooltip: truncated(title + " - "@ + state, TEXT_LIMIT as nat),
        image: image_address(config, s.cover),
        start: if bounded {
            Some(start_of(now->0 as int, s.current_page as int) as i64)
        } else {
            None
        },
        end: if bounded {
            Some(end_of(now->0 as int, s.current_page as int, s.total_pages as int) as i64)
        } else {
            None
        },
    }
}

/// The payload of the second attempt, made where the client refused the
/// full one: the name of the series, cut to length like every title, and a
/// fixed state.
pub open spec fn simplified_payload_of(title: Seq<char>) -> PresencePayloadView {
    PresencePayloadView {
        title: truncated(title, TEXT_LIMIT as nat),
        state: "Reading..."@,
        tooltip: Seq::empty(),
        image: None,
        start: None,
        end: None,
    }
}

/// Appends " - Page P of N" where pages are shown.
fn push_page_suffix(out: &mut String, show_pages: bool, page: i32, total: i32)
    ensures
        final(out)@ == old(out)@ + page_suffix(show_pages, page as int, total as int),
{
    if show_pages {
        out.append(" - ");
        out.append("Page ");
        push_decimal(out, page as i64);
        out.append(" of ");
        push_decimal(out, total as i64);
        assert(out@ =~= old(out)@ + page_suffix(show_pages, page as int, total as int));
    } else {
        assert(out@ =~= old(out)@ + page_suffix(show_pages, page as int, total as int));
    }
}

/// The state text of a session, not yet cut to length.
pub fn render_state(session: &Session, show_pages: bool) -> (state: String)
    ensures
        state@ == state_text(session@, show_pages),
{
    let mut state = session.author.clone();
    if session.is_book_mode {
    } else if !session.numbered && session.volume_label.as_str().unicode_len() > 0 {
        state.append(" - ");
        state.append(session.volume_label.as_str());
    } else {
        state.append(" - Ch. ");
        state.append(session.chapter_label.as_str());
    }
    push_page_suffix(&mut state, show_pages, session.current_page, session.total_pages);
    state
}

/// The address of the picture of a session.
pub fn render_image(config: &Config, cover: Cover) -> (address: Option<String>)
    ensures
        opt_text(address) == image_address(config@, cover),
{
    match cover {
        Cover::Series(id) => {
            let mut a = config.kavita_url.clone();
            a.append("/api/Image/series-cover?seriesId=");
            push_decimal(&mut a, id as i64);
            a.append("&apiKey=");
            a.append(config.kavita_api_key.as_str());
            Some(a)
        },
        Cover::Chapter(id) => {
            let mut a = config.kavita_url.clone();
            a.append("/api/Image/chapter-cover?chapterId=");
            push_decimal(&mut a, id as i64);
            a.append("&apiKey=");
            a.append(config.kavita_api_key.as_str());
            Some(a)
        },
        Cover::Absent => None,
    }
}

/// The bounds of the progress bar, where a payload carries them.
pub fn progress_bounds(now: Option<i64>, page: i32, total: i32) -> (bounds: Option<(i64, i64)>)
    ensures
        bounds is Some == has_bounds(now, page as int, total as int),
        bounds matches Some(b) ==> b.0 == start_of(now->0 as int, page as int) && b.1 == end_of(
            now->0 as int,
            page as int,
            total as int,
        ),
{
    match now {
        Some(n) => {
            if n <= 0 {
                return None;
            }
            let start: i128 = (n as i128) - (page as i128) * 20;
            let end: i128 = (n as i128) + 20 * ((total as i128) - (page as i128));
            if start < i64::MIN as i128 || start > i64::MAX as i128 || end < i64::MIN as i128
                || end > i64::MAX as i128 {
                return None;
            }
            Some((start as i64, end as i64))
        },
        None => None,
    }
}

/// Renders the payload that a session is shown with. `now` is the current
/// time in seconds since the epoch, or `None` where the clock cannot be read.
pub fn render(session: &Session, config: &Config, now: Option<i64>) -> (payload: PresencePayload)
    ensures
        payload@ == payload_of(session@, config@, now),
        payload@.title.len() <= TEXT_LIMIT,
        payload@.state.len() <= TEXT_LIMIT,
        payload@.tooltip.len() <= TEXT_LIMIT,
        state_text(session@, config@.shows_pages()).len() > TEXT_LIMIT ==> payload@.state
            == state_text(session@, config@.shows_pages()).take(TEXT_LIMIT as int),
{
    let title = truncate(session.series_name.clone(), TEXT_LIMIT);
    let state = truncate(render_state(session, config.shows_pages()), TEXT_LIMIT);
    let mut tooltip = title.clone();
    tooltip.append(" - ");
    tooltip.append(state.as_str());
    let tooltip = truncate(tooltip, TEXT_LIMIT);
    let image = render_image(config, session.cover);
    let bounds = progress_bounds(now, session.current_page, session.total_pages);
    let (start, end) = match bounds {
        Some(b) => (Some(b.0), Some(b.1)),
        None => (None, None),
    };
    PresencePayload { title, state, tooltip, image, start, end }
}

/// Renders the payload of the second attempt. Its title is cut to length.
pub fn render_simplified(title: String) -> (payload: PresencePayload)
    ensures
        payload@ == simplified_payload_of(title@),
        payload@.title.len() <= TEXT_LIMIT,
        payload@.state.len() <= TEXT_LIMIT,
        payload@.tooltip.len() <= TEXT_LIMIT,
{
    proof {
        reveal_strlit("Reading...");
    }
    PresencePayload {
        title: truncate(title, TEXT_LIMIT),
        state: String::from_str("Reading..."),
        tooltip: String::new(),
        image: None,
        start: None,
        end: None,
    }
}

/// Every text of the second payload has at most a hundred characters too.
pub proof fn simplified_texts_are_bounded(title: Seq<char>)
    ensures
        simplified_payload_of(title).title.len() <= 100,
        simplified_payload_of(title).state.len() <= 100,
        simplified_payload_of(title).tooltip.len() <= 100,
        title.len() > 100 ==> simplified_payload_of(title).title == title.take(100),
        title.len() <= 100 ==> simplified_payload_of(title).title == title,
{
    reveal_strlit("Reading...");
}

/// Every text of a payload has at most a hundred characters, and one that was
/// cut is the first hundred characters of what it was cut from.
pub proof fn rendered_texts_are_bounded(s: SessionView, config: ConfigView, now: Option<i64>)
    ensures
        ({
            let p = payload_of(s, config, now);
            let full = state_text(s, config.shows_pages());
            &&& p.title.len() <= 100
            &&& p.state.len() <= 100
            &&& p.tooltip.len() <= 100
            &&& full.len() > 100 ==> p.state == full.take(100)
            &&& full.len() <= 100 ==> p.state == full
            &&& s.series_name.len() > 100 ==> p.title == s.series_name.take(100)
            &&& s.series_name.len() <= 100 ==> p.title == s.series_name
        }),
{
}

} // verus!
