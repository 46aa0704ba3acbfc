use vstd::prelude::*;
use crate::clock::{elapsed_between, elapsed_ms};
use crate::models::{Activity, PomodoroSession, PomodoroStatus};

verus! {

/// The session under way, if any. Saving a finished session is the caller's.
pub struct PomodoroManager {
    current_session: Option<PomodoroSession>,
}

impl PomodoroManager {
    /// The session under way.
    pub closed spec fn current(&self) -> Option<PomodoroSession> {
        self.current_session
    }

    pub fn new() -> (m: PomodoroManager)
        ensures
            m.current() is None,
    {
        PomodoroManager { current_session: None }
    }

    /// Begins a work session of `duration` milliseconds at time `now`,
    /// replacing any session under way.
    pub fn start_session(&mut self, duration: u64, now: i64)
        ensures
            final(self).current() == Some(PomodoroSession {
                id: None,
                start_time: now,
                end_time: None,
                duration,
                status: PomodoroStatus::Work,
                project_id: None,
                notes: None,
            }),
    {
        self.current_session = Some(PomodoroSession {
            id: None,
            start_time: now,
            end_time: None,
            duration,
            status: PomodoroStatus::Work,
            project_id: None,
            notes: None,
        });
    }

    /// Ends the session under way at time `now`: it is returned completed,
    /// for the caller to save, and none is under way afterwards.
    pub fn stop_session(&mut self, now: i64) -> (done: Option<PomodoroSession>)
        ensures
            final(self).current() is None,
            match old(self).current() {
                Some(s) => done == Some(PomodoroSession { end_time: Some(now), status: PomodoroStatus::Completed, ..s }),
                None => done is None,
            },
    {
        match self.current_session.take() {
            Some(mut s) => {
                s.end_time = Some(now);
                s.status = PomodoroStatus::Completed;
                Some(s)
            },
            None => None,
        }
    }

    /// Marks the session under way as a short break.
    pub fn pause_session(&mut self)
        ensures
            match old(self).current() {
                Some(s) => final(self).current() == Some(PomodoroSession { status: PomodoroStatus::ShortBreak, ..s }),
                None => final(self).current() is None,
            },
    {
        match self.current_session.take() {
            Some(mut s) => {
                s.status = PomodoroStatus::ShortBreak;
                self.current_session = Some(s);
            },
            None => {},
        }
    }

    /// Marks the session under way as work again.
    pub fn resume_session(&mut self)
        ensures
            match old(self).current() {
                Some(s) => final(self).current() == Some(PomodoroSession { status: PomodoroStatus::Work, ..s }),
                None => final(self).current() is None,
            },
    {
        match self.current_session.take() {
            Some(mut s) => {
                s.status = PomodoroStatus::Work;
                self.current_session = Some(s);
            },
            None => {},
        }
    }

    /// The session under way.
    pub fn get_current_session(&self) -> (r: Option<&PomodoroSession>)
        ensures
            match self.current() {
                Some(s) => r matches Some(x) && *x == s,
                None => r is None,
            },
    {
        match &self.current_session {
            Some(s) => Some(s),
            None => None,
        }
    }

    /// A work session is under way.
    pub fn is_active(&self) -> (b: bool)
        ensures
            b == (self.current() matches Some(s) && s.status is Work),
    {
        match &self.current_session {
            Some(s) => match s.status {
                PomodoroStatus::Work => true,
                _ => false,
            },
            None => false,
        }
    }
}

/// The activity being tracked, if any.
pub struct ActivityManager {
    current_activity: Option<Activity>,
}

impl ActivityManager {
    /// The activity being tracked.
    pub closed spec fn current(&self) -> Option<Activity> {
        self.current_activity
    }

    pub fn new() -> (m: ActivityManager)
        ensures
            m.current() is None,
    {
        ActivityManager { current_activity: None }
    }

    /// Starts tracking `activity`, replacing any other.
    pub fn start_activity(&mut self, activity: Activity)
        ensures
            final(self).current() == Some(activity),
    {
        self.current_activity = Some(activity);
    }

    /// Stops tracking.
    pub fn stop_activity(&mut self)
        ensures
            final(self).current() is None,
    {
        self.current_activity = None;
    }

    /// The activity being tracked.
    pub fn get_current_activity(&self) -> (r: Option<&Activity>)
        ensures
            match self.current() {
                Some(a) => r matches Some(x) && *x == a,
                None => r is None,
            },
    {
        match &self.current_activity {
            Some(a) => Some(a),
            None => None,
        }
    }

    /// An activity is being tracked.
    pub fn is_tracking(&self) -> (b: bool)
        ensures
            b == self.current() is Some,
    {
        self.current_activity.is_some()
    }

    /// Milliseconds since the tracked activity started, at time `now`: zero
    /// when none is tracked or the clock reads earlier than its start.
    pub fn get_elapsed_time(&self, now: i64) -> (e: u64)
        ensures
            e == match self.current() {
                Some(a) => elapsed_between(a.start_time, now),
                None => 0,
            },
    {
        match &self.current_activity {
            Some(a) => elapsed_ms(a.start_time, now),
            None => 0,
        }
    }
}

} // verus!
