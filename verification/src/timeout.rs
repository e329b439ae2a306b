//! The inactivity timer: a warning first, the end of the session after it.
//!
//! The timer does not sleep. It keeps a deadline on the caller's clock, which
//! counts milliseconds from any fixed origin and never runs backwards, and is
//! asked with the current time whether anything is due. A reset, at either
//! stage, starts the whole timer again.

use vstd::prelude::*;
use crate::notice::{
    Notice,
    NoticeView,
    closes_at,
    closing_time,
    timeout_description,
    timeout_notice,
    timeout_title,
    warning_description,
    warning_notice,
    warning_title,
};
use crate::outcome::ConfigurationError;

verus! {

/// Where the timer stands.
#[derive(Clone, Copy, Debug, PartialEq, Eq, Structural)]
pub enum Stage {
    /// No warning was given since the timer was last started.
    WaitingWarning,
    /// The warning was given; the final deadline runs.
    WaitingFinal,
    /// The final deadline passed. The timer does nothing any more.
    Expired,
}

/// What the timer asks for when it is polled.
#[derive(Clone, Copy, Debug, PartialEq, Eq, Structural)]
pub enum TimeoutEffect {
    /// Nothing is due.
    Idle,
    /// The warning is due: tell the thread that it will be closed at
    /// `closes_at` unless something arrives.
    Warning { closes_at: u64 },
    /// The final deadline passed: tell the thread and end the session.
    Terminate,
}

/// The instant that lies `duration` after `now`, or the last instant that the
/// clock can show where that one lies beyond it.
pub open spec fn instant_after(now: u64, duration: u64) -> u64 {
    if now + duration > u64::MAX {
        u64::MAX
    } else {
        (now + duration) as u64
    }
}

/// What a [`Timeout`] holds, as a mathematical value.
pub struct TimeoutView {
    /// The time from a start of the timer to the warning.
    pub warning_duration: u64,
    /// The time from the warning to the end.
    pub timeout_duration: u64,
    pub stage: Stage,
    /// When the current stage ends. It means nothing once the timer expired.
    pub deadline: u64,
}

impl TimeoutView {
    /// A timer that was started at `now`.
    pub open spec fn start(warning_duration: u64, timeout_duration: u64, now: u64) -> TimeoutView {
        TimeoutView {
            warning_duration,
            timeout_duration,
            stage: Stage::WaitingWarning,
            deadline: instant_after(now, warning_duration),
        }
    }

    /// Both durations are positive.
    pub open spec fn valid(self) -> bool {
        self.warning_duration > 0 && self.timeout_duration > 0
    }

    /// Whether the current stage has ended at `now`.
    pub open spec fn due(self, now: u64) -> bool {
        self.stage != Stage::Expired && now >= self.deadline
    }

    /// When the timer next has something to do, unless it has expired.
    pub open spec fn deadline_or_none(self) -> Option<u64> {
        if self.stage == Stage::Expired {
            None
        } else {
            Some(self.deadline)
        }
    }

    /// The timer after a reset at `now`: back at the first stage with the full
    /// time to the warning ahead, whatever stage it was in. An expired timer
    /// stays expired.
    pub open spec fn reset(self, now: u64) -> TimeoutView {
        if self.stage == Stage::Expired {
            self
        } else {
            TimeoutView {
                stage: Stage::WaitingWarning,
                deadline: instant_after(now, self.warning_duration),
                ..self
            }
        }
    }

    /// What a poll at `now` asks for.
    pub open spec fn effect(self, now: u64) -> TimeoutEffect {
        if !self.due(now) {
            TimeoutEffect::Idle
        } else if self.stage == Stage::WaitingWarning {
            TimeoutEffect::Warning { closes_at: instant_after(now, self.timeout_duration) }
        } else {
            TimeoutEffect::Terminate
        }
    }

    /// The timer after a poll at `now`.
    pub open spec fn poll(self, now: u64) -> TimeoutView {
        if !self.due(now) {
            self
        } else if self.stage == Stage::WaitingWarning {
            TimeoutView {
                stage: Stage::WaitingFinal,
                deadline: instant_after(now, self.timeout_duration),
                ..self
            }
        } else {
            TimeoutView { stage: Stage::Expired, ..self }
        }
    }
}

/// The two-stage inactivity timer of one session.
pub struct Timeout {
    warning_duration: u64,
    timeout_duration: u64,
    stage: Stage,
    deadline: u64,
}

impl View for Timeout {
    type V = TimeoutView;

    closed spec fn view(&self) -> TimeoutView {
        TimeoutView {
            warning_duration: self.warning_duration,
            timeout_duration: self.timeout_duration,
            stage: self.stage,
            deadline: self.deadline,
        }
    }
}

impl Timeout {
    /// A timer that warns `warning_duration` after `now` and ends the session
    /// `timeout_duration` after the warning. Both have to be positive.
    pub fn new(warning_duration: u64, timeout_duration: u64, now: u64) -> (res: Result<Self, ConfigurationError>)
        ensures
            warning_duration == 0 ==> (res matches Err(e) && e
                == ConfigurationError::WarningNotPositive),
            warning_duration > 0 && timeout_duration == 0 ==> (res matches Err(e) && e
                == ConfigurationError::TimeoutNotPositive),
            warning_duration > 0 && timeout_duration > 0 ==> (res matches Ok(timeout) && timeout@
                == TimeoutView::start(warning_duration, timeout_duration, now)),
    {
        if warning_duration == 0 {
            Err(ConfigurationError::WarningNotPositive)
        } else if timeout_duration == 0 {
            Err(ConfigurationError::TimeoutNotPositive)
        } else {
            Ok(
                Timeout {
                    warning_duration,
                    timeout_duration,
                    stage: Stage::WaitingWarning,
                    deadline: now.saturating_add(warning_duration),
                },
            )
        }
    }

    /// The time from a start of the timer to the warning.
    pub fn warning_duration(&self) -> (duration: u64)
        ensures
            duration == self@.warning_duration,
    {
        self.warning_duration
    }

    /// The time from the warning to the end.
    pub fn timeout_duration(&self) -> (duration: u64)
        ensures
            duration == self@.timeout_duration,
    {
        self.timeout_duration
    }

    /// Where the timer stands.
    pub fn stage(&self) -> (stage: Stage)
        ensures
            stage == self@.stage,
    {
        self.stage
    }

    /// When the timer next has something to do; `None` once it has expired.
    pub fn deadline(&self) -> (deadline: Option<u64>)
        ensures
            deadline == self@.deadline_or_none(),
    {
        match self.stage {
            Stage::Expired => None,
            _ => Some(self.deadline),
        }
    }

    /// The warning to send when the timer asks for it at the Unix time
    /// `unix_now`, in seconds. It names the time at which the thread will be
    /// closed: the whole seconds of the time from the warning to the end,
    /// counted from `unix_now`.
    pub fn send_timeout_warning(&self, unix_now: i64) -> (notice: Notice)
        ensures
            notice@ == (NoticeView {
                title: warning_title(),
                description: warning_description(closing_time(unix_now, self@.timeout_duration)),
            }),
    {
        warning_notice(closes_at(unix_now, self.timeout_duration))
    }

    /// The notice to send when the timer has ended the session.
    pub fn send_timeout_message(&self) -> (notice: Notice)
        ensures
            notice@ == (NoticeView { title: timeout_title(), description: timeout_description() }),
    {
        timeout_notice()
    }

    /// Starts the timer again at `now`, from either stage.
    pub fn reset(&mut self, now: u64)
        ensures
            final(self)@ == old(self)@.reset(now),
    {
        match self.stage {
            Stage::Expired => {},
            _ => {
                self.stage = Stage::WaitingWarning;
                self.deadline = now.saturating_add(self.warning_duration);
            },
        }
    }

    /// Runs the timer up to `now`: says whether a stage has ended, and moves
    /// on if one has. The caller sleeps until the deadline, or until something
    /// else wakes it, and runs the timer again.
    pub fn run(&mut self, now: u64) -> (effect: TimeoutEffect)
        ensures
            effect == old(self)@.effect(now),
            final(self)@ == old(self)@.poll(now),
    {
        match self.stage {
            Stage::Expired => TimeoutEffect::Idle,
            Stage::WaitingWarning => {
                if now >= self.deadline {
                    let closes_at = now.saturating_add(self.timeout_duration);
                    self.stage = Stage::WaitingFinal;
                    self.deadline = closes_at;
                    TimeoutEffect::Warning { closes_at }
                } else {
                    TimeoutEffect::Idle
                }
            },
            Stage::WaitingFinal => {
                if now >= self.deadline {
                    self.stage = Stage::Expired;
                    TimeoutEffect::Terminate
                } else {
                    TimeoutEffect::Idle
                }
            },
        }
    }
}

/// Left alone, a timer runs its two stages and stops. Before the first
/// deadline a poll asks for nothing; at the deadline it asks for the warning
/// and names the final deadline; before that one a poll asks for nothing
/// again; at it the poll asks for the end; after it the timer is inert,
/// whatever is done to it. Where the clock can show them, the two deadlines
/// are `start + warning_duration` and `start + warning_duration +
/// timeout_duration`.
pub proof fn lemma_undisturbed_schedule(
    warning_duration: u64,
    timeout_duration: u64,
    start: u64,
    early: u64,
    between: u64,
    late: u64,
)
    ensures
        ({
            let first = instant_after(start, warning_duration);
            let last = instant_after(first, timeout_duration);
            let armed = TimeoutView::start(warning_duration, timeout_duration, start);
            let warned = armed.poll(first);
            let expired = warned.poll(last);
            &&& armed.stage == Stage::WaitingWarning && armed.deadline == first
            &&& early < first ==> armed.effect(early) == TimeoutEffect::Idle && armed.poll(early)
                == armed
            &&& armed.effect(first) == TimeoutEffect::Warning { closes_at: last }
            &&& warned.stage == Stage::WaitingFinal && warned.deadline == last
            &&& between < last ==> warned.effect(between) == TimeoutEffect::Idle && warned.poll(
                between,
            ) == warned
            &&& warned.effect(last) == TimeoutEffect::Terminate
            &&& expired.stage == Stage::Expired
            &&& expired.effect(late) == TimeoutEffect::Idle && expired.poll(late) == expired
                && expired.reset(late) == expired
            &&& start + warning_duration + timeout_duration <= u64::MAX ==> first == start
                + warning_duration && last == start + warning_duration + timeout_duration
        }),
{
}

/// A reset that comes before the warning is due keeps the warning back: the
/// timer starts again from zero at the time of the reset, asks for nothing
/// until a full `warning_duration` has passed since then, and asks for the
/// warning when it has.
pub proof fn lemma_reset_before_warning(timer: TimeoutView, at: u64, now: u64)
    requires
        timer.stage == Stage::WaitingWarning,
        at < timer.deadline,
    ensures
        timer.effect(at) == TimeoutEffect::Idle,
        timer.reset(at).stage == Stage::WaitingWarning,
        timer.reset(at).deadline == instant_after(at, timer.warning_duration),
        now < instant_after(at, timer.warning_duration) ==> timer.reset(at).effect(now)
            == TimeoutEffect::Idle && timer.reset(at).poll(now) == timer.reset(at),
        timer.reset(at).effect(instant_after(at, timer.warning_duration)) is Warning,
{
}

/// A reset that comes after the warning takes the warning back: the timer
/// returns to its first stage and a full `warning_duration` has to pass,
/// counted from the reset, before it asks for anything. What it asks for then
/// is the warning again; the end is never asked for on time that passed
/// before the reset.
pub proof fn lemma_reset_after_warning(timer: TimeoutView, at: u64, now: u64)
    requires
        timer.stage == Stage::WaitingFinal,
    ensures
        timer.reset(at).stage == Stage::WaitingWarning,
        timer.reset(at).deadline == instant_after(at, timer.warning_duration),
        now < instant_after(at, timer.warning_duration) ==> timer.reset(at).effect(now)
            == TimeoutEffect::Idle && timer.reset(at).poll(now) == timer.reset(at),
        timer.reset(at).effect(now) != TimeoutEffect::Terminate,
        timer.reset(at).effect(instant_after(at, timer.warning_duration)) is Warning,
{
}

/// Resets collapse: of several resets that come before the timer is looked at
/// again, the last one counts, and none of them is lost.
pub proof fn lemma_resets_collapse(timer: TimeoutView, earlier: u64, later: u64)
    ensures
        timer.reset(earlier).reset(later) == timer.reset(later),
        timer.reset(later).reset(later) == timer.reset(later),
        timer.stage != Stage::Expired ==> timer.reset(later).stage == Stage::WaitingWarning,
{
}

/// A reset and a deadline that fall on the same instant go to the reset: a
/// timer that is reset at `now` asks for nothing at `now`. The one instant
/// at which this cannot hold is the last that the clock can show, where
/// every deadline has passed.
pub proof fn lemma_reset_wins_tie(timer: TimeoutView, now: u64)
    requires
        timer.valid(),
        now < u64::MAX,
    ensures
        timer.reset(now).effect(now) == TimeoutEffect::Idle,
        timer.reset(now).poll(now) == timer.reset(now),
{
}

/// The end is asked for once: the poll that asks for it leaves the timer
/// expired, and an expired timer asks for nothing.
pub proof fn lemma_terminates_once(timer: TimeoutView, now: u64, later: u64)
    requires
        timer.effect(now) == TimeoutEffect::Terminate,
    ensures
        timer.stage == Stage::WaitingFinal,
        timer.poll(now).stage == Stage::Expired,
        timer.poll(now).effect(later) == TimeoutEffect::Idle,
{
}

} // verus!
