//! What holds of every poll, proved of the step of the machine.

use crate::clock::{
    event_time_of, offset_reading, plain_reading, within_window, TimeSource, Timestamp,
    DEFAULT_ACTIVITY_WINDOW_MINUTES,
};
use crate::cycle::{next, started, ActionView, EngineView, ReplyView, StageView, SubjectView};
use crate::history::latest_event;
use crate::model::{
    ChapterInfoView, ConfigView, ProgressRecord, ReadingEventView, SeriesDetailView,
    SeriesInfoView,
};
use crate::render::{payload_of, simplified_texts_are_bounded};
use crate::session::session_of;
use crate::text::leading_segment;
use crate::tracker::TrackerView;
use crate::visibility::lists_id;
use vstd::prelude::*;

verus! {

/// The engine and the actions after a run of replies, each taken at its own
/// time. `times` tells the time of each reply.
pub open spec fn run(
    engine: EngineView,
    replies: Seq<ReplyView>,
    times: Seq<Timestamp>,
    config: ConfigView,
) -> (EngineView, Seq<ActionView>)
    decreases replies.len(),
{
    if replies.len() == 0 {
        (engine, Seq::empty())
    } else {
        let step = next(engine, replies[0], config, times[0]);
        let later = run(step.0, replies.skip(1), times.skip(1), config);
        (later.0, seq![step.1] + later.1)
    }
}

/// How often a run of actions withdraws the status.
pub open spec fn clears(actions: Seq<ActionView>) -> nat
    decreases actions.len(),
{
    if actions.len() == 0 {
        0
    } else if actions[0] is Clear {
        1 + clears(actions.skip(1))
    } else {
        clears(actions.skip(1))
    }
}

/// How often a run of actions hands out a payload.
pub open spec fn publishes(actions: Seq<ActionView>) -> nat
    decreases actions.len(),
{
    if actions.len() == 0 {
        0
    } else if actions[0] is Publish {
        1 + publishes(actions.skip(1))
    } else {
        publishes(actions.skip(1))
    }
}

/// The payloads that a poll at this stage can still hand out: the full one
/// and the simplified one before anything went out, the simplified one while
/// the full one waits for its answer, none after that.
pub open spec fn payloads_left(stage: StageView) -> nat {
    match stage {
        StageView::Publishing { retry_title } => if retry_title is Some {
            1
        } else {
            0
        },
        StageView::Clearing { .. } => 0,
        StageView::Finished => 0,
        _ => 2,
    }
}

/// A stage from which the status can still be withdrawn in this poll.
pub open spec fn can_still_clear(stage: StageView) -> bool {
    !(stage is Clearing || stage is Finished || stage is Publishing)
}

/// A server that fails either of its two probes cannot be reached. While
/// reading, the poll withdraws the status, and once that is done the tracker
/// is idle and holds no session. While idle, the poll rests, withdraws
/// nothing and holds no session either.
pub proof fn unreachable_server_ends_reading(
    tracker: TrackerView,
    second_probe: bool,
    reply: ReplyView,
    config: ConfigView,
    now: Timestamp,
    later: Timestamp,
)
    requires
        !(reply is Done),
    ensures
        ({
            let stage = if second_probe {
                StageView::CheckingHealth
            } else {
                StageView::Probing
            };
            let after = next(EngineView { tracker, stage }, reply, config, now);
            let done = next(after.0, ReplyView::Done, config, later);
            &&& tracker.is_reading ==> after.1 is Clear && done.1 is Sleep
                && !done.0.tracker.is_reading && done.0.tracker.current is None
            &&& !tracker.is_reading ==> after.1 is Sleep && !after.0.tracker.is_reading
                && after.0.tracker.current is None
        }),
{
}

/// A poll that meets a blacklisted series never asks for its metadata: it
/// withdraws the status where one is shown, and rests where none is. The
/// tracker is left as it was.
pub proof fn blacklisted_series_is_never_looked_up(
    tracker: TrackerView,
    series_id: i32,
    series_name: Seq<char>,
    record: ProgressRecord,
    config: ConfigView,
    now: Timestamp,
)
    requires
        lists_id(config.blacklisted_series_ids, series_id),
    ensures
        ({
            let before = EngineView {
                tracker,
                stage: StageView::FetchingProgress { series_id, series_name },
            };
            let after = next(before, ReplyView::Progress { record }, config, now);
            &&& !(after.1 is FetchMetadata)
            &&& tracker.is_reading ==> after.1 is Clear
            &&& !tracker.is_reading ==> after.1 is Sleep
            &&& after.0.tracker == tracker
        }),
{
}

/// A poll that resolves a series makes the tracker reading and hands out the
/// payload of the session, and once the client has taken it the poll rests:
/// the payload goes out once.
pub proof fn resolving_makes_reading(
    tracker: TrackerView,
    subject: SubjectView,
    chapter: ChapterInfoView,
    series: SeriesInfoView,
    detail: Option<SeriesDetailView>,
    config: ConfigView,
    now: Timestamp,
    later: Timestamp,
)
    ensures
        ({
            let before = EngineView {
                tracker,
                stage: StageView::FetchingSeries { subject, chapter },
            };
            let reply = ReplyView::Series { flat: Some(series), detail };
            let shown = next(before, reply, config, now);
            let session = session_of(
                subject.series_id,
                subject.progress,
                chapter,
                series,
                detail,
                now,
            );
            let done = next(shown.0, ReplyView::Done, config, later);
            &&& shown.0.tracker.is_reading
            &&& shown.0.tracker.last_contact == now
            &&& shown.0.tracker.current is Some
            &&& shown.0.tracker.current->0.same_reading(session)
            &&& shown.1 == (ActionView::Publish {
                payload: payload_of(session, config, Some(now.secs)),
            })
            &&& done.1 is Sleep
            &&& done.0.stage is Finished
            &&& done.0.tracker == shown.0.tracker
        }),
{
}

/// Whatever payload a step hands out, the full one or the second one, each of
/// its texts has at most a hundred characters.
pub proof fn every_payload_is_bounded(
    engine: EngineView,
    reply: ReplyView,
    config: ConfigView,
    now: Timestamp,
)
    ensures
        next(engine, reply, config, now).1 matches ActionView::Publish { payload } ==> {
            &&& payload.title.len() <= 100
            &&& payload.state.len() <= 100
            &&& payload.tooltip.len() <= 100
        },
{
    match engine.stage {
        StageView::Publishing { retry_title: Some(title) } => {
            simplified_texts_are_bounded(title);
        },
        _ => {},
    }
}

/// Whether the history reply of a poll holds an event to go on with: its
/// latest event, where that is recent enough.
pub open spec fn has_fresh_event(reply: ReplyView, config: ConfigView, now: Timestamp) -> bool {
    &&& reply matches ReplyView::History { events }
    &&& latest_event(events) matches Some(e)
    &&& within_window(
        now,
        event_time_of(e.read_date_utc, now).0,
        config.timeout_or(DEFAULT_ACTIVITY_WINDOW_MINUTES),
    )
}

/// A history without a fresh event ends the reading, be it a history that
/// was read, a refusal, or an answer that does not decode. While reading, the
/// poll withdraws the status, and the tracker is idle once that is done.
/// While idle, the poll rests and withdraws nothing. The next action is never
/// to fetch the progress.
pub proof fn no_fresh_event_ends_reading(
    tracker: TrackerView,
    reply: ReplyView,
    config: ConfigView,
    now: Timestamp,
    later: Timestamp,
)
    requires
        !has_fresh_event(reply, config, now),
        reply is History || reply is Refused || reply is Undecodable,
    ensures
        ({
            let before = EngineView { tracker, stage: StageView::FetchingHistory };
            let after = next(before, reply, config, now);
            let done = next(after.0, ReplyView::Done, config, later);
            &&& !(after.1 is FetchProgress)
            &&& tracker.is_reading ==> after.1 is Clear && !done.0.tracker.is_reading && done.1
                is Sleep
            &&& !tracker.is_reading ==> after.1 is Sleep && after.0.tracker == tracker
        }),
{
}

/// A history with a fresh event sends the poll on to the progress of the
/// chapter that the event names.
pub proof fn fresh_event_is_followed(
    tracker: TrackerView,
    events: Seq<ReadingEventView>,
    config: ConfigView,
    now: Timestamp,
)
    requires
        has_fresh_event(ReplyView::History { events }, config, now),
    ensures
        ({
            let before = EngineView { tracker, stage: StageView::FetchingHistory };
            let after = next(before, ReplyView::History { events }, config, now);
            let e = latest_event(events)->0;
            &&& after.1 == (ActionView::FetchProgress {
                chapter_id: e.chapter_id,
                timed_by: event_time_of(e.read_date_utc, now).1,
            })
            &&& after.0.tracker == tracker
        }),
{
}

/// An event whose time cannot be read counts as having just happened: its
/// time is the time of the poll, and it is inside every window that is not
/// empty.
pub proof fn unreadable_time_counts_as_now(text: Seq<char>, now: Timestamp, window_minutes: u64)
    requires
        offset_reading(text) is None,
        plain_reading(leading_segment(text, '.'), "%Y-%m-%dT%H:%M:%S"@) is None,
    ensures
        event_time_of(text, now) == (now, TimeSource::Clock),
        within_window(now, event_time_of(text, now).0, window_minutes) <==> window_minutes > 0,
{
}

/// No step withdraws a status that is not shown, and a step changes whether
/// the tracker is reading only in two ways: it becomes reading together with
/// a payload going out, and it becomes idle when a withdrawal is done.
pub proof fn status_changes_with_its_action(
    engine: EngineView,
    reply: ReplyView,
    config: ConfigView,
    now: Timestamp,
)
    ensures
        ({
            let after = next(engine, reply, config, now);
            &&& after.1 is Clear ==> engine.tracker.is_reading && can_still_clear(engine.stage)
                && after.0.stage is Clearing && after.0.tracker == engine.tracker
            &&& !engine.tracker.is_reading && after.0.tracker.is_reading ==> after.1 is Publish
                && after.0.stage is Publishing
            &&& engine.tracker.is_reading && !after.0.tracker.is_reading ==> engine.stage
                is Clearing && reply is Done && after.1 is Sleep
            &&& !can_still_clear(engine.stage) ==> !can_still_clear(after.0.stage)
            &&& can_still_clear(after.0.stage) ==> after.0.tracker == engine.tracker
        }),
{
}

/// From any point of a poll on, the status is withdrawn at most once, and not
/// at all where none is shown or the poll is past the point of withdrawing.
pub proof fn at_most_one_clear_from(
    engine: EngineView,
    replies: Seq<ReplyView>,
    times: Seq<Timestamp>,
    config: ConfigView,
)
    ensures
        clears(run(engine, replies, times, config).1) <= 1,
        !(engine.tracker.is_reading && can_still_clear(engine.stage)) ==> clears(
            run(engine, replies, times, config).1,
        ) == 0,
    decreases replies.len(),
{
    if replies.len() > 0 {
        let step = next(engine, replies[0], config, times[0]);
        let later = run(step.0, replies.skip(1), times.skip(1), config);
        status_changes_with_its_action(engine, replies[0], config, times[0]);
        at_most_one_clear_from(step.0, replies.skip(1), times.skip(1), config);
        let all = seq![step.1] + later.1;
        assert(all.skip(1) =~= later.1);
        assert(all[0] == step.1);
    }
}

/// From any point of a poll on, no more payloads go out than the stage has
/// left, and the simplified payload goes out only after the full one was not
/// taken.
pub proof fn payloads_are_counted_from(
    engine: EngineView,
    replies: Seq<ReplyView>,
    times: Seq<Timestamp>,
    config: ConfigView,
)
    ensures
        publishes(run(engine, replies, times, config).1) <= payloads_left(engine.stage),
        replies.len() > 0 && engine.stage is Publishing && replies[0] is Done ==> publishes(
            run(engine, replies, times, config).1,
        ) == 0,
    decreases replies.len(),
{
    if replies.len() > 0 {
        let step = next(engine, replies[0], config, times[0]);
        let later = run(step.0, replies.skip(1), times.skip(1), config);
        payloads_are_counted_from(step.0, replies.skip(1), times.skip(1), config);
        let all = seq![step.1] + later.1;
        assert(all.skip(1) =~= later.1);
        assert(all[0] == step.1);
    }
}

/// A poll hands out at most two payloads, whatever replies it gets: the full
/// one and, where the client did not take it, the simplified one.
pub proof fn a_poll_publishes_at_most_twice(
    tracker: TrackerView,
    replies: Seq<ReplyView>,
    times: Seq<Timestamp>,
    config: ConfigView,
)
    ensures
        publishes(run(started(tracker).0, replies, times, config).1) <= 2,
{
    payloads_are_counted_from(started(tracker).0, replies, times, config);
}

/// A poll withdraws the status at most once, whatever replies it gets, and
/// never while the tracker is idle.
pub proof fn a_poll_clears_at_most_once(
    tracker: TrackerView,
    replies: Seq<ReplyView>,
    times: Seq<Timestamp>,
    config: ConfigView,
)
    ensures
        clears(run(started(tracker).0, replies, times, config).1) <= 1,
        !tracker.is_reading ==> clears(run(started(tracker).0, replies, times, config).1) == 0,
{
    at_most_one_clear_from(started(tracker).0, replies, times, config);
}

} // verus!
