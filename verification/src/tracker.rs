//! The tracker: what the presence client currently shows, kept from one poll
//! to the next.
//!
//! It is in one of two states, reading or idle. It becomes reading when a
//! session is resolved, and idle when the status that is shown has been
//! withdrawn. A status is withdrawn only while reading, so it is never
//! withdrawn twice for one change to idle.

use crate::clock::Timestamp;
use crate::session::{opt_session, Session, SessionView};
use vstd::prelude::*;

verus! {

/// The state kept between polls.
#[derive(Clone, Debug, PartialEq, Eq)]
pub struct TrackerState {
    /// When a session was last resolved; the time of creation before that.
    pub last_contact: Timestamp,
    /// Whether a status is shown.
    pub is_reading: bool,
    /// The session that was last resolved.
    pub current: Option<Session>,
}

pub struct TrackerView {
    pub last_contact: Timestamp,
    pub is_reading: bool,
    pub current: Option<SessionView>,
}

impl View for TrackerState {
    type V = TrackerView;

    open spec fn view(&self) -> TrackerView {
        TrackerView {
            last_contact: self.last_contact,
            is_reading: self.is_reading,
            current: opt_session(self.current),
        }
    }
}

/// The session that is kept when `fresh` is resolved while `current` is
/// held. Where both are the same reading only the progress is taken from the
/// fresh one; else the fresh one replaces what was held.
pub open spec fn kept_session(current: Option<SessionView>, fresh: SessionView) -> SessionView {
    match current {
        Some(held) => if held.same_reading(fresh) {
            SessionView { current_page: fresh.current_page, total_pages: fresh.total_pages, ..held }
        } else {
            fresh
        },
        None => fresh,
    }
}

/// The session that is kept is the reading that was resolved, at the progress
/// that was resolved, and a session of another reading is replaced whole.
pub proof fn kept_session_is_the_fresh_reading(current: Option<SessionView>, fresh: SessionView)
    ensures
        kept_session(current, fresh).same_reading(fresh),
        kept_session(current, fresh).current_page == fresh.current_page,
        kept_session(current, fresh).total_pages == fresh.total_pages,
        !(current is Some && current->0.same_reading(fresh)) ==> kept_session(current, fresh)
            == fresh,
{
}

impl TrackerView {
    /// The tracker of a fresh start: idle, with nothing held.
    pub open spec fn fresh(now: Timestamp) -> TrackerView {
        TrackerView { last_contact: now, is_reading: false, current: None }
    }

    /// The tracker after a session was resolved at `now`.
    pub open spec fn resolved(self, fresh: SessionView, now: Timestamp) -> TrackerView {
        TrackerView {
            last_contact: now,
            is_reading: true,
            current: Some(kept_session(self.current, fresh)),
        }
    }

    /// The tracker after the status was withdrawn.
    pub open spec fn withdrawn(self, forget: bool) -> TrackerView {
        TrackerView {
            last_contact: self.last_contact,
            is_reading: false,
            current: if forget {
                None
            } else {
                self.current
            },
        }
    }

    /// The tracker without the session it held.
    pub open spec fn forgetful(self) -> TrackerView {
        TrackerView { current: None, ..self }
    }
}

impl TrackerState {
    /// The tracker of a fresh start.
    pub fn new(now: Timestamp) -> (tracker: TrackerState)
        ensures
            tracker@ == TrackerView::fresh(now),
    {
        TrackerState { last_contact: now, is_reading: false, current: None }
    }

    /// Takes note of a session resolved at `now`: the tracker is reading.
    pub fn resolve(self, fresh: Session, now: Timestamp) -> (tracker: TrackerState)
        ensures
            tracker@ == self@.resolved(fresh@, now),
    {
        let kept = match self.current {
            Some(held) => {
                if held.series_id == fresh.series_id && held.chapter_id == fresh.chapter_id {
                    Session {
                        current_page: fresh.current_page,
                        total_pages: fresh.total_pages,
                        ..held
                    }
                } else {
                    fresh
                }
            },
            None => fresh,
        };
        TrackerState { last_contact: now, is_reading: true, current: Some(kept) }
    }

    /// Takes note that the status was withdrawn: the tracker is idle. With
    /// `forget` the session that was held is dropped too.
    pub fn withdraw(self, forget: bool) -> (tracker: TrackerState)
        ensures
            tracker@ == self@.withdrawn(forget),
    {
        TrackerState {
            last_contact: self.last_contact,
            is_reading: false,
            current: if forget {
                None
            } else {
                self.current
            },
        }
    }

    /// Drops the session that was held.
    pub fn forget(self) -> (tracker: TrackerState)
        ensures
            tracker@ == self@.forgetful(),
    {
        TrackerState { current: None, ..self }
    }
}

} // verus!
