//! One poll, as a state machine.
//!
//! A poll alternates between asking the outside for something and deciding
//! what to ask next. The asking is not done here. The engine names the next
//! action; whoever runs it performs the action and hands back the reply; the
//! engine then names the next action, until it says to sleep. Every decision
//! of a poll is made in [`Engine::advance`].

use crate::clock::{
    event_time, event_time_of, has_lapsed, is_recent, window_exceeded, within_window, TimeSource,
    Timestamp, DEFAULT_ACTIVITY_WINDOW_MINUTES, DEFAULT_CONTACT_WINDOW_MINUTES,
};
use crate::history::{latest_event, most_recent, user_id_of, user_id_or_default, DEFAULT_USER_ID};
use crate::model::{
    events_view, opt_detail, opt_metadata, BookInfo, BookInfoView, ChapterInfo, ChapterInfoView,
    Config, ConfigView, ProgressRecord, ReadingEvent, ReadingEventView, SeriesDetail,
    SeriesDetailView, SeriesInfo, SeriesInfoView, SeriesMetadata, SeriesMetadataView,
};
use crate::render::{
    payload_of, render, render_simplified, simplified_payload_of, PresencePayload,
    PresencePayloadView, TEXT_LIMIT,
};
use crate::resolver::{
    chapter_from_book, opt_series, placeholder_series, series_from_answer, series_from_book,
    series_from_last_resort, series_from_shapes, synthesize_chapter, synthesize_placeholder,
};
use crate::session::{build_session, session_of};
use crate::text::truncated;
use crate::tracker::{TrackerState, TrackerView};
use crate::visibility::{late_rejection, screen, screen_metadata, screening_of, Screening};
use vstd::prelude::*;

verus! {

/// The seconds between the end of one poll and the start of the next.
pub const POLL_INTERVAL_SECONDS: u64 = 15;

/// The seconds the probe waits for the server. No other action has a limit of
/// its own.
pub const PROBE_TIMEOUT_SECONDS: u64 = 5;

/// What a poll is resolving: the series that the latest event named, and the
/// reader's position.
#[derive(Clone, Debug, PartialEq, Eq)]
pub struct Subject {
    pub series_id: i32,
    /// The name of the series as the history gave it.
    pub series_name: String,
    pub progress: ProgressRecord,
}

pub struct SubjectView {
    pub series_id: i32,
    pub series_name: Seq<char>,
    pub progress: ProgressRecord,
}

impl View for Subject {
    type V = SubjectView;

    open spec fn view(&self) -> SubjectView {
        SubjectView {
            series_id: self.series_id,
            series_name: self.series_name@,
            progress: self.progress,
        }
    }
}

/// Where a poll stands: which reply it waits for, and what it has gathered.
#[derive(Clone, Debug, PartialEq, Eq)]
pub enum Stage {
    Probing,
    CheckingHealth,
    LoggingIn,
    FetchingAccount,
    FetchingHistory,
    FetchingProgress { series_id: i32, series_name: String },
    FetchingMetadata { subject: Subject },
    FetchingChapter { subject: Subject },
    /// Waiting for book information to make up the chapter from.
    FetchingChapterBook { subject: Subject },
    FetchingSeries { subject: Subject, chapter: ChapterInfo },
    /// Waiting for book information to make up the series from.
    FetchingSeriesBook { subject: Subject, chapter: ChapterInfo },
    /// Waiting for the presence client to take a payload. `retry_title` is the
    /// title of the second attempt where one is still to be made.
    Publishing { retry_title: Option<String> },
    /// Waiting for the presence client to withdraw the status.
    Clearing { forget: bool },
    /// The poll is over.
    Finished,
}

pub enum StageView {
    Probing,
    CheckingHealth,
    LoggingIn,
    FetchingAccount,
    FetchingHistory,
    FetchingProgress { series_id: i32, series_name: Seq<char> },
    FetchingMetadata { subject: SubjectView },
    FetchingChapter { subject: SubjectView },
    FetchingChapterBook { subject: SubjectView },
    FetchingSeries { subject: SubjectView, chapter: ChapterInfoView },
    FetchingSeriesBook { subject: SubjectView, chapter: ChapterInfoView },
    Publishing { retry_title: Option<Seq<char>> },
    Clearing { forget: bool },
    Finished,
}

impl View for Stage {
    type V = StageView;

    open spec fn view(&self) -> StageView {
        match *self {
            Stage::Probing => StageView::Probing,
            Stage::CheckingHealth => StageView::CheckingHealth,
            Stage::LoggingIn => StageView::LoggingIn,
            Stage::FetchingAccount => StageView::FetchingAccount,
            Stage::FetchingHistory => StageView::FetchingHistory,
            Stage::FetchingProgress { series_id, series_name } => StageView::FetchingProgress {
                series_id,
                series_name: series_name@,
            },
            Stage::FetchingMetadata { subject } => StageView::FetchingMetadata { subject: subject@ },
            Stage::FetchingChapter { subject } => StageView::FetchingChapter { subject: subject@ },
            Stage::FetchingChapterBook { subject } => StageView::FetchingChapterBook {
                subject: subject@,
            },
            Stage::FetchingSeries { subject, chapter } => StageView::FetchingSeries {
                subject: subject@,
                chapter: chapter@,
            },
            Stage::FetchingSeriesBook { subject, chapter } => StageView::FetchingSeriesBook {
                subject: subject@,
                chapter: chapter@,
            },
            Stage::Publishing { retry_title } => StageView::Publishing {
                retry_title: crate::model::opt_text(retry_title),
            },
            Stage::Clearing { forget } => StageView::Clearing { forget },
            Stage::Finished => StageView::Finished,
        }
    }
}

/// What came back from an action.
#[derive(Clone, Debug, PartialEq, Eq)]
pub enum Reply {
    /// The action could not be carried out: no answer came.
    Failed,
    /// The server answered with an error status.
    Refused,
    /// The answer came and could not be decoded.
    Undecodable,
    /// The action succeeded and has nothing to tell.
    Done,
    /// The server accepted the login; `token_present` says whether its answer
    /// held a token.
    Login { token_present: bool },
    /// The account answer, with the id where one could be read from it.
    Account { id: Option<i64> },
    History { events: Vec<ReadingEvent> },
    Progress { record: ProgressRecord },
    Metadata { metadata: SeriesMetadata },
    Chapter { chapter: ChapterInfo },
    Book { info: BookInfo },
    /// The series answer, decoded in each shape that fits it.
    Series { flat: Option<SeriesInfo>, detail: Option<SeriesDetail> },
}

pub enum ReplyView {
    Failed,
    Refused,
    Undecodable,
    Done,
    Login { token_present: bool },
    Account { id: Option<i64> },
    History { events: Seq<ReadingEventView> },
    Progress { record: ProgressRecord },
    Metadata { metadata: SeriesMetadataView },
    Chapter { chapter: ChapterInfoView },
    Book { info: BookInfoView },
    Series { flat: Option<SeriesInfoView>, detail: Option<SeriesDetailView> },
}

impl View for Reply {
    type V = ReplyView;

    open spec fn view(&self) -> ReplyView {
        match *self {
            Reply::Failed => ReplyView::Failed,
            Reply::Refused => ReplyView::Refused,
            Reply::Undecodable => ReplyView::Undecodable,
            Reply::Done => ReplyView::Done,
            Reply::Login { token_present } => ReplyView::Login { token_present },
            Reply::Account { id } => ReplyView::Account { id },
            Reply::History { events } => ReplyView::History { events: events_view(events@) },
            Reply::Progress { record } => ReplyView::Progress { record },
            Reply::Metadata { metadata } => ReplyView::Metadata { metadata: metadata@ },
            Reply::Chapter { chapter } => ReplyView::Chapter { chapter: chapter@ },
            Reply::Book { info } => ReplyView::Book { info: info@ },
            Reply::Series { flat, detail } => ReplyView::Series {
                flat: opt_series(flat),
                detail: opt_detail(detail),
            },
        }
    }
}

/// What is to be done next.
#[derive(Clone, Debug, PartialEq, Eq)]
pub enum Action {
    /// Ask whether the server can be reached at all.
    ProbeServer,
    /// Ask the server for its health: the second probe.
    CheckHealth,
    Login,
    FetchAccount,
    FetchHistory { user_id: i64 },
    /// Fetch the reader's position in a chapter. `timed_by` tells how the time
    /// of the latest event was read, so that a stand-in time can be noticed.
    FetchProgress { chapter_id: i32, timed_by: TimeSource },
    FetchMetadata { series_id: i32 },
    FetchChapter { chapter_id: i32 },
    FetchBookInfo { chapter_id: i32 },
    FetchSeries { series_id: i32 },
    /// Hand a payload to the presence client.
    Publish { payload: PresencePayload },
    /// Have the presence client withdraw the status.
    Clear,
    /// The poll is over; wait for the next.
    Sleep,
}

pub enum ActionView {
    ProbeServer,
    CheckHealth,
    Login,
    FetchAccount,
    FetchHistory { user_id: i64 },
    FetchProgress { chapter_id: i32, timed_by: TimeSource },
    FetchMetadata { series_id: i32 },
    FetchChapter { chapter_id: i32 },
    FetchBookInfo { chapter_id: i32 },
    FetchSeries { series_id: i32 },
    Publish { payload: PresencePayloadView },
    Clear,
    Sleep,
}

impl View for Action {
    type V = ActionView;

    open spec fn view(&self) -> ActionView {
        match *self {
            Action::ProbeServer => ActionView::ProbeServer,
            Action::CheckHealth => ActionView::CheckHealth,
            Action::Login => ActionView::Login,
            Action::FetchAccount => ActionView::FetchAccount,
            Action::FetchHistory { user_id } => ActionView::FetchHistory { user_id },
            Action::FetchProgress { chapter_id, timed_by } => ActionView::FetchProgress {
                chapter_id,
                timed_by,
            },
            Action::FetchMetadata { series_id } => ActionView::FetchMetadata { series_id },
            Action::FetchChapter { chapter_id } => ActionView::FetchChapter { chapter_id },
            Action::FetchBookInfo { chapter_id } => ActionView::FetchBookInfo { chapter_id },
            Action::FetchSeries { series_id } => ActionView::FetchSeries { series_id },
            Action::Publish { payload } => ActionView::Publish { payload: payload@ },
            Action::Clear => ActionView::Clear,
            Action::Sleep => ActionView::Sleep,
        }
    }
}

/// The tracker together with the stage of the poll that is under way.
#[derive(Clone, Debug, PartialEq, Eq)]
pub struct Engine {
    pub tracker: TrackerState,
    pub stage: Stage,
}

pub struct EngineView {
    pub tracker: TrackerView,
    pub stage: StageView,
}

impl View for Engine {
    type V = EngineView;

    open spec fn view(&self) -> EngineView {
        EngineView { tracker: self.tracker@, stage: self.stage@ }
    }
}

/// The poll ends here and the tracker stays as it is.
pub open spec fn rest(tracker: TrackerView) -> (EngineView, ActionView) {
    (EngineView { tracker, stage: StageView::Finished }, ActionView::Sleep)
}

/// The poll found nothing to show. A status that is shown is to be
/// withdrawn; where none is shown the poll ends. With `forget` the session
/// that is held is dropped as well.
pub open spec fn go_idle(tracker: TrackerView, forget: bool) -> (EngineView, ActionView) {
    if tracker.is_reading {
        (EngineView { tracker, stage: StageView::Clearing { forget } }, ActionView::Clear)
    } else if forget {
        rest(tracker.forgetful())
    } else {
        rest(tracker)
    }
}

/// The poll goes on to the chapter.
pub open spec fn ask_chapter(tracker: TrackerView, subject: SubjectView) -> (EngineView, ActionView) {
    (
        EngineView { tracker, stage: StageView::FetchingChapter { subject } },
        ActionView::FetchChapter { chapter_id: subject.progress.chapter_id },
    )
}

/// The poll goes on to book information.
pub open spec fn ask_book(tracker: TrackerView, stage: StageView, subject: SubjectView) -> (
    EngineView,
    ActionView,
) {
    (
        EngineView { tracker, stage },
        ActionView::FetchBookInfo { chapter_id: subject.progress.chapter_id },
    )
}

/// The poll goes on to the series.
pub open spec fn ask_series(tracker: TrackerView, subject: SubjectView, chapter: ChapterInfoView) -> (
    EngineView,
    ActionView,
) {
    (
        EngineView { tracker, stage: StageView::FetchingSeries { subject, chapter } },
        ActionView::FetchSeries { series_id: subject.series_id },
    )
}

/// Everything is resolved: the tracker is reading and the payload of the
/// session goes out. Its title is kept for a second attempt.
pub open spec fn publish(
    tracker: TrackerView,
    subject: SubjectView,
    chapter: ChapterInfoView,
    series: SeriesInfoView,
    detail: Option<SeriesDetailView>,
    config: ConfigView,
    now: Timestamp,
) -> (EngineView, ActionView) {
    let session = session_of(subject.series_id, subject.progress, chapter, series, detail, now);
    (
        EngineView {
            tracker: tracker.resolved(session, now),
            stage: StageView::Publishing {
                retry_title: Some(truncated(series.name, TEXT_LIMIT as nat)),
            },
        },
        ActionView::Publish { payload: payload_of(session, config, Some(now.secs)) },
    )
}

/// After the first probe. A server that cannot be reached makes the tracker
/// idle and forget its session; so does a shown status whose last contact
/// lies longer back than the contact window.
pub open spec fn after_probe(
    tracker: TrackerView,
    reply: ReplyView,
    config: ConfigView,
    now: Timestamp,
) -> (EngineView, ActionView) {
    if reply is Done {
        if tracker.is_reading && window_exceeded(
            now,
            tracker.last_contact,
            config.timeout_or(DEFAULT_CONTACT_WINDOW_MINUTES),
        ) {
            go_idle(tracker, true)
        } else {
            (EngineView { tracker, stage: StageView::CheckingHealth }, ActionView::CheckHealth)
        }
    } else {
        go_idle(tracker, true)
    }
}

/// After the health check. It is the second probe of the server: one that
/// fails means the server cannot be reached, as after the first.
pub open spec fn after_health(tracker: TrackerView, reply: ReplyView) -> (EngineView, ActionView) {
    if reply is Done {
        (EngineView { tracker, stage: StageView::LoggingIn }, ActionView::Login)
    } else {
        go_idle(tracker, true)
    }
}

/// After the login: without a token the poll ends.
pub open spec fn after_login(tracker: TrackerView, reply: ReplyView) -> (EngineView, ActionView) {
    if reply == (ReplyView::Login { token_present: true }) {
        (EngineView { tracker, stage: StageView::FetchingAccount }, ActionView::FetchAccount)
    } else {
        rest(tracker)
    }
}

/// After the account answer: the history of the account is asked for, of
/// the default account where the answer tells no id.
pub open spec fn after_account(tracker: TrackerView, reply: ReplyView) -> (EngineView, ActionView) {
    let ask = |user_id: i64|
        (
            EngineView { tracker, stage: StageView::FetchingHistory },
            ActionView::FetchHistory { user_id },
        );
    match reply {
        ReplyView::Account { id } => ask(user_id_of(id)),
        ReplyView::Refused => ask(DEFAULT_USER_ID),
        ReplyView::Undecodable => ask(DEFAULT_USER_ID),
        _ => rest(tracker),
    }
}

/// After the history: the poll goes on with the latest event where that is
/// recent enough; else there is nothing to show.
pub open spec fn after_history(
    tracker: TrackerView,
    reply: ReplyView,
    config: ConfigView,
    now: Timestamp,
) -> (EngineView, ActionView) {
    match reply {
        ReplyView::History { events } => match latest_event(events) {
            Some(e) => {
                let timed = event_time_of(e.read_date_utc, now);
                if within_window(
                    now,
                    timed.0,
                    config.timeout_or(DEFAULT_ACTIVITY_WINDOW_MINUTES),
                ) {
                    (
                        EngineView {
                            tracker,
                            stage: StageView::FetchingProgress {
                                series_id: e.series_id,
                                series_name: e.series_name,
                            },
                        },
                        ActionView::FetchProgress { chapter_id: e.chapter_id, timed_by: timed.1 },
                    )
                } else {
                    go_idle(tracker, false)
                }
            },
            None => go_idle(tracker, false),
        },
        ReplyView::Refused => go_idle(tracker, false),
        ReplyView::Undecodable => go_idle(tracker, false),
        _ => rest(tracker),
    }
}

/// After the progress: the rules that need no metadata are applied.
pub open spec fn after_progress(
    tracker: TrackerView,
    series_id: i32,
    series_name: Seq<char>,
    reply: ReplyView,
    config: ConfigView,
) -> (EngineView, ActionView) {
    match reply {
        ReplyView::Progress { record } => {
            let subject = SubjectView { series_id, series_name, progress: record };
            match screening_of(config, record.library_id, series_id, series_name) {
                Screening::Rejected(_) => go_idle(tracker, false),
                Screening::NeedsMetadata => (
                    EngineView { tracker, stage: StageView::FetchingMetadata { subject } },
                    ActionView::FetchMetadata { series_id },
                ),
                Screening::Visible => ask_chapter(tracker, subject),
            }
        },
        ReplyView::Refused => go_idle(tracker, false),
        ReplyView::Undecodable => go_idle(tracker, false),
        _ => rest(tracker),
    }
}

/// The metadata that a reply holds, if it holds any.
pub open spec fn metadata_in(reply: ReplyView) -> Option<SeriesMetadataView> {
    match reply {
        ReplyView::Metadata { metadata } => Some(metadata),
        _ => None,
    }
}

/// After the metadata: the tag and genre rules are applied. Metadata that
/// could not be had rejects nothing.
pub open spec fn after_metadata(
    tracker: TrackerView,
    subject: SubjectView,
    reply: ReplyView,
    config: ConfigView,
) -> (EngineView, ActionView) {
    match late_rejection(config, metadata_in(reply)) {
        Some(_) => go_idle(tracker, false),
        None => ask_chapter(tracker, subject),
    }
}

/// After the chapter answer: one that does not decode sends the poll to the
/// book endpoint; no answer ends it.
pub open spec fn after_chapter(tracker: TrackerView, subject: SubjectView, reply: ReplyView) -> (
    EngineView,
    ActionView,
) {
    match reply {
        ReplyView::Chapter { chapter } => ask_series(tracker, subject, chapter),
        ReplyView::Undecodable => ask_book(
            tracker,
            StageView::FetchingChapterBook { subject },
            subject,
        ),
        _ => rest(tracker),
    }
}

/// After book information for the chapter: without it the poll ends.
pub open spec fn after_chapter_book(tracker: TrackerView, subject: SubjectView, reply: ReplyView) -> (
    EngineView,
    ActionView,
) {
    match reply {
        ReplyView::Book { info } => ask_series(
            tracker,
            subject,
            chapter_from_book(subject.progress.chapter_id, info),
        ),
        _ => rest(tracker),
    }
}

/// After the series answer: an answer in neither shape sends the poll to
/// the book endpoint; no answer ends it.
pub open spec fn after_series(
    tracker: TrackerView,
    subject: SubjectView,
    chapter: ChapterInfoView,
    reply: ReplyView,
    config: ConfigView,
    now: Timestamp,
) -> (EngineView, ActionView) {
    let book_stage = StageView::FetchingSeriesBook { subject, chapter };
    match reply {
        ReplyView::Series { flat, detail } => match series_from_shapes(
            subject.series_id,
            subject.series_name,
            flat,
            detail,
        ) {
            Some(series) => publish(tracker, subject, chapter, series, detail, config, now),
            None => ask_book(tracker, book_stage, subject),
        },
        ReplyView::Undecodable => ask_book(tracker, book_stage, subject),
        _ => rest(tracker),
    }
}

/// After book information for the series: whatever the server answered, a
/// series comes of it. Only where no answer came does the poll end.
pub open spec fn after_series_book(
    tracker: TrackerView,
    subject: SubjectView,
    chapter: ChapterInfoView,
    reply: ReplyView,
    config: ConfigView,
    now: Timestamp,
) -> (EngineView, ActionView) {
    match reply {
        ReplyView::Failed => rest(tracker),
        ReplyView::Book { info } => publish(
            tracker,
            subject,
            chapter,
            series_from_book(info),
            None,
            config,
            now,
        ),
        _ => publish(
            tracker,
            subject,
            chapter,
            placeholder_series(subject.series_id),
            None,
            config,
            now,
        ),
    }
}

/// After a payload went out: one that was not taken is followed by the
/// simplified payload, once.
pub open spec fn after_publishing(
    tracker: TrackerView,
    retry_title: Option<Seq<char>>,
    reply: ReplyView,
) -> (EngineView, ActionView) {
    if reply is Done {
        rest(tracker)
    } else {
        match retry_title {
            Some(title) => (
                EngineView { tracker, stage: StageView::Publishing { retry_title: None } },
                ActionView::Publish { payload: simplified_payload_of(title) },
            ),
            None => rest(tracker),
        }
    }
}

/// After the status was to be withdrawn: the tracker is idle only where it
/// was withdrawn indeed.
pub open spec fn after_clearing(tracker: TrackerView, forget: bool, reply: ReplyView) -> (
    EngineView,
    ActionView,
) {
    if reply is Done {
        rest(tracker.withdrawn(forget))
    } else {
        rest(tracker)
    }
}

/// The step of the machine: from the engine and a reply to the engine after
/// it and the next action.
pub open spec fn next(engine: EngineView, reply: ReplyView, config: ConfigView, now: Timestamp) -> (
    EngineView,
    ActionView,
) {
    let tracker = engine.tracker;
    match engine.stage {
        StageView::Probing => after_probe(tracker, reply, config, now),
        StageView::CheckingHealth => after_health(tracker, reply),
        StageView::LoggingIn => after_login(tracker, reply),
        StageView::FetchingAccount => after_account(tracker, reply),
        StageView::FetchingHistory => after_history(tracker, reply, config, now),
        StageView::FetchingProgress { series_id, series_name } => after_progress(
            tracker,
            series_id,
            series_name,
            reply,
            config,
        ),
        StageView::FetchingMetadata { subject } => after_metadata(tracker, subject, reply, config),
        StageView::FetchingChapter { subject } => after_chapter(tracker, subject, reply),
        StageView::FetchingChapterBook { subject } => after_chapter_book(tracker, subject, reply),
        StageView::FetchingSeries { subject, chapter } => after_series(
            tracker,
            subject,
            chapter,
            reply,
            config,
            now,
        ),
        StageView::FetchingSeriesBook { subject, chapter } => after_series_book(
            tracker,
            subject,
            chapter,
            reply,
            config,
            now,
        ),
        StageView::Publishing { retry_title } => after_publishing(tracker, retry_title, reply),
        StageView::Clearing { forget } => after_clearing(tracker, forget, reply),
        StageView::Finished => rest(tracker),
    }
}

/// The start of a poll: the probe is the first action.
pub open spec fn started(tracker: TrackerView) -> (EngineView, ActionView) {
    (EngineView { tracker, stage: StageView::Probing }, ActionView::ProbeServer)
}

fn finish(tracker: TrackerState) -> (r: (Engine, Action))
    ensures
        (r.0@, r.1@) == rest(tracker@),
{
    (Engine { tracker, stage: Stage::Finished }, Action::Sleep)
}

fn idle(tracker: TrackerState, forget: bool) -> (r: (Engine, Action))
    ensures
        (r.0@, r.1@) == go_idle(tracker@, forget),
{
    if tracker.is_reading {
        (Engine { tracker, stage: Stage::Clearing { forget } }, Action::Clear)
    } else if forget {
        finish(tracker.forget())
    } else {
        finish(tracker)
    }
}

fn to_chapter(tracker: TrackerState, subject: Subject) -> (r: (Engine, Action))
    ensures
        (r.0@, r.1@) == ask_chapter(tracker@, subject@),
{
    let chapter_id = subject.progress.chapter_id;
    (Engine { tracker, stage: Stage::FetchingChapter { subject } }, Action::FetchChapter { chapter_id })
}

fn to_series(tracker: TrackerState, subject: Subject, chapter: ChapterInfo) -> (r: (Engine, Action))
    ensures
        (r.0@, r.1@) == ask_series(tracker@, subject@, chapter@),
{
    let series_id = subject.series_id;
    (
        Engine { tracker, stage: Stage::FetchingSeries { subject, chapter } },
        Action::FetchSeries { series_id },
    )
}

fn to_publish(
    tracker: TrackerState,
    subject: Subject,
    chapter: ChapterInfo,
    series: SeriesInfo,
    detail: Option<SeriesDetail>,
    config: &Config,
    now: Timestamp,
) -> (r: (Engine, Action))
    ensures
        (r.0@, r.1@) == publish(
            tracker@,
            subject@,
            chapter@,
            series@,
            opt_detail(detail),
            config@,
            now,
        ),
{
    let session = build_session(subject.series_id, subject.progress, &chapter, &series, &detail, now);
    let payload = render(&session, config, Some(now.secs));
    let retry_title = payload.title.clone();
    (
        Engine {
            tracker: tracker.resolve(session, now),
            stage: Stage::Publishing { retry_title: Some(retry_title) },
        },
        Action::Publish { payload },
    )
}

fn on_history(tracker: TrackerState, reply: Reply, config: &Config, now: Timestamp) -> (r: (
    Engine,
    Action,
))
    ensures
        (r.0@, r.1@) == after_history(tracker@, reply@, config@, now),
{
    match reply {
        Reply::History { events } => {
            match most_recent(&events) {
                Some(i) => {
                    let e = &events[i];
                    assert(events_view(events@)[i as int] == e@);
                    let timed = event_time(e.read_date_utc.as_str(), now);
                    let window = config.timeout_or(DEFAULT_ACTIVITY_WINDOW_MINUTES);
                    if is_recent(now, timed.0, window) {
                        (
                            Engine {
                                tracker,
                                stage: Stage::FetchingProgress {
                                    series_id: e.series_id,
                                    series_name: e.series_name.clone(),
                                },
                            },
                            Action::FetchProgress { chapter_id: e.chapter_id, timed_by: timed.1 },
                        )
                    } else {
                        idle(tracker, false)
                    }
                },
                None => idle(tracker, false),
            }
        },
        Reply::Refused => idle(tracker, false),
        Reply::Undecodable => idle(tracker, false),
        _ => finish(tracker),
    }
}

fn on_progress(
    tracker: TrackerState,
    series_id: i32,
    series_name: String,
    reply: Reply,
    config: &Config,
) -> (r: (Engine, Action))
    ensures
        (r.0@, r.1@) == after_progress(tracker@, series_id, series_name@, reply@, config@),
{
    match reply {
        Reply::Progress { record } => {
            let screening = screen(config, record.library_id, series_id, series_name.as_str());
            let subject = Subject { series_id, series_name, progress: record };
            match screening {
                Screening::Rejected(_) => idle(tracker, false),
                Screening::NeedsMetadata => (
                    Engine { tracker, stage: Stage::FetchingMetadata { subject } },
                    Action::FetchMetadata { series_id },
                ),
                Screening::Visible => to_chapter(tracker, subject),
            }
        },
        Reply::Refused => idle(tracker, false),
        Reply::Undecodable => idle(tracker, false),
        _ => finish(tracker),
    }
}

fn on_metadata(tracker: TrackerState, subject: Subject, reply: Reply, config: &Config) -> (r: (
    Engine,
    Action,
))
    ensures
        (r.0@, r.1@) == after_metadata(tracker@, subject@, reply@, config@),
{
    let metadata = match reply {
        Reply::Metadata { metadata } => Some(metadata),
        _ => None,
    };
    assert(opt_metadata(metadata) == metadata_in(reply@));
    match screen_metadata(config, &metadata) {
        Some(_) => idle(tracker, false),
        None => to_chapter(tracker, subject),
    }
}

fn on_series(
    tracker: TrackerState,
    subject: Subject,
    chapter: ChapterInfo,
    reply: Reply,
    config: &Config,
    now: Timestamp,
) -> (r: (Engine, Action))
    ensures
        (r.0@, r.1@) == after_series(tracker@, subject@, chapter@, reply@, config@, now),
{
    match reply {
        Reply::Series { flat, detail } => {
            match series_from_answer(subject.series_id, subject.series_name.as_str(), flat, &detail) {
                Some(series) => to_publish(tracker, subject, chapter, series, detail, config, now),
                None => {
                    let chapter_id = subject.progress.chapter_id;
                    (
                        Engine { tracker, stage: Stage::FetchingSeriesBook { subject, chapter } },
                        Action::FetchBookInfo { chapter_id },
                    )
                },
            }
        },
        Reply::Undecodable => {
            let chapter_id = subject.progress.chapter_id;
            (
                Engine { tracker, stage: Stage::FetchingSeriesBook { subject, chapter } },
                Action::FetchBookInfo { chapter_id },
            )
        },
        _ => finish(tracker),
    }
}

fn on_series_book(
    tracker: TrackerState,
    subject: Subject,
    chapter: ChapterInfo,
    reply: Reply,
    config: &Config,
    now: Timestamp,
) -> (r: (Engine, Action))
    ensures
        (r.0@, r.1@) == after_series_book(tracker@, subject@, chapter@, reply@, config@, now),
{
    match reply {
        Reply::Failed => finish(tracker),
        Reply::Book { info } => {
            let series = series_from_last_resort(subject.series_id, Some(info));
            to_publish(tracker, subject, chapter, series, None, config, now)
        },
        _ => {
            let series = synthesize_placeholder(subject.series_id);
            to_publish(tracker, subject, chapter, series, None, config, now)
        },
    }
}

impl Engine {
    /// An engine that has not polled yet: idle, with no poll under way.
    pub fn new(now: Timestamp) -> (engine: Engine)
        ensures
            engine@ == (EngineView { tracker: TrackerView::fresh(now), stage: StageView::Finished }),
    {
        Engine { tracker: TrackerState::new(now), stage: Stage::Finished }
    }

    /// Starts a poll. Whatever poll was under way is dropped; the tracker is
    /// kept.
    pub fn begin(self) -> (r: (Engine, Action))
        ensures
            (r.0@, r.1@) == started(self@.tracker),
    {
        (Engine { tracker: self.tracker, stage: Stage::Probing }, Action::ProbeServer)
    }

    /// Takes the reply to the action that was named last and names the next.
    /// `now` is the current time. A reply that does not answer the action
    /// ends the poll and leaves the tracker as it is.
    pub fn advance(self, reply: Reply, config: &Config, now: Timestamp) -> (r: (Engine, Action))
        ensures
            (r.0@, r.1@) == next(self@, reply@, config@, now),
    {
        let tracker = self.tracker;
        match self.stage {
            Stage::Probing => {
                match reply {
                    Reply::Done => {
                        let window = config.timeout_or(DEFAULT_CONTACT_WINDOW_MINUTES);
                        if tracker.is_reading && has_lapsed(now, tracker.last_contact, window) {
                            idle(tracker, true)
                        } else {
                            (Engine { tracker, stage: Stage::CheckingHealth }, Action::CheckHealth)
                        }
                    },
                    _ => idle(tracker, true),
                }
            },
            Stage::CheckingHealth => {
                match reply {
                    Reply::Done => (Engine { tracker, stage: Stage::LoggingIn }, Action::Login),
                    _ => idle(tracker, true),
                }
            },
            Stage::LoggingIn => {
                match reply {
                    Reply::Login { token_present } => {
                        if token_present {
                            (
                                Engine { tracker, stage: Stage::FetchingAccount },
                                Action::FetchAccount,
                            )
                        } else {
                            finish(tracker)
                        }
                    },
                    _ => finish(tracker),
                }
            },
            Stage::FetchingAccount => {
                match reply {
                    Reply::Account { id } => (
                        Engine { tracker, stage: Stage::FetchingHistory },
                        Action::FetchHistory { user_id: user_id_or_default(id) },
                    ),
                    Reply::Refused => (
                        Engine { tracker, stage: Stage::FetchingHistory },
                        Action::FetchHistory { user_id: DEFAULT_USER_ID },
                    ),
                    Reply::Undecodable => (
                        Engine { tracker, stage: Stage::FetchingHistory },
                        Action::FetchHistory { user_id: DEFAULT_USER_ID },
                    ),
                    _ => finish(tracker),
                }
            },
            Stage::FetchingHistory => on_history(tracker, reply, config, now),
            Stage::FetchingProgress { series_id, series_name } => on_progress(
                tracker,
                series_id,
                series_name,
                reply,
                config,
            ),
            Stage::FetchingMetadata { subject } => on_metadata(tracker, subject, reply, config),
            Stage::FetchingChapter { subject } => {
                match reply {
                    Reply::Chapter { chapter } => to_series(tracker, subject, chapter),
                    Reply::Undecodable => {
                        let chapter_id = subject.progress.chapter_id;
                        (
                            Engine { tracker, stage: Stage::FetchingChapterBook { subject } },
                            Action::FetchBookInfo { chapter_id },
                        )
                    },
                    _ => finish(tracker),
                }
            },
            Stage::FetchingChapterBook { subject } => {
                match reply {
                    Reply::Book { info } => {
                        let chapter = synthesize_chapter(subject.progress.chapter_id, info);
                        to_series(tracker, subject, chapter)
                    },
                    _ => finish(tracker),
                }
            },
            Stage::FetchingSeries { subject, chapter } => on_series(
                tracker,
                subject,
                chapter,
                reply,
                config,
                now,
            ),
            Stage::FetchingSeriesBook { subject, chapter } => on_series_book(
                tracker,
                subject,
                chapter,
                reply,
                config,
                now,
            ),
            Stage::Publishing { retry_title } => {
                match reply {
                    Reply::Done => finish(tracker),
                    _ => match retry_title {
                        Some(title) => (
                            Engine { tracker, stage: Stage::Publishing { retry_title: None } },
                            Action::Publish { payload: render_simplified(title) },
                        ),
                        None => finish(tracker),
                    },
                }
            },
            Stage::Clearing { forget } => {
                match reply {
                    Reply::Done => finish(tracker.withdraw(forget)),
                    _ => finish(tracker),
                }
            },
            Stage::Finished => finish(tracker),
        }
    }
}

} // verus!
