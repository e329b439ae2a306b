//! One session: the event handler, the relay queue and the inactivity timer
//! under one roof, and the rule that the first of them to finish ends all.
//!
//! Three tasks run a session: one listens to the gateway, one sleeps until the
//! timer's deadline, one feeds the consumer. Each brings what happened to the
//! coordinator and carries out the step that comes back. Whichever of them
//! reports the end first decides the outcome; after that nothing is relayed,
//! no notice is asked for and the outcome stays as it is.

use vstd::prelude::*;
use crate::outcome::{ConfigurationError, SessionError, SessionOutcome};
use crate::thread_message::{MessageView, ThreadMessage};
use crate::notice::{
    Notice,
    NoticeView,
    closing_time,
    timeout_description,
    timeout_title,
    warning_description,
    warning_title,
};
use crate::thread_watcher::{
    Batch,
    HandlerView,
    QueueClosedError,
    ThreadEventHandler,
    ThreadHandle,
    ThreadMetadata,
    ThreadStatus,
    ThreadView,
    ThreadWatcher,
    WatcherAction,
    WatcherView,
    message_views,
};
use crate::timeout::{Stage, Timeout, TimeoutEffect, TimeoutView, instant_after};

verus! {

/// The tasks of a session.
#[derive(Clone, Copy, Debug, PartialEq, Eq, Structural)]
pub enum Arm {
    /// The connection to the gateway and the event handler.
    Gateway,
    /// The inactivity timer.
    Timeout,
    /// The loop that hands batches to the consumer.
    Consumer,
}

impl Arm {
    /// The two tasks that are stopped when this one has finished.
    pub open spec fn rest(self) -> (Arm, Arm) {
        match self {
            Arm::Gateway => (Arm::Timeout, Arm::Consumer),
            Arm::Timeout => (Arm::Gateway, Arm::Consumer),
            Arm::Consumer => (Arm::Gateway, Arm::Timeout),
        }
    }

    /// The two tasks that are stopped when this one has finished.
    pub fn others(&self) -> (others: (Arm, Arm))
        ensures
            others == self.rest(),
            others.0 != *self,
            others.1 != *self,
            others.0 != others.1,
    {
        match self {
            Arm::Gateway => (Arm::Timeout, Arm::Consumer),
            Arm::Timeout => (Arm::Gateway, Arm::Consumer),
            Arm::Consumer => (Arm::Gateway, Arm::Timeout),
        }
    }
}

/// What the caller has to do after an event.
#[derive(Clone, Copy, Debug, PartialEq, Eq, Structural)]
pub enum Step {
    /// Nothing.
    Continue,
    /// A message was put into the relay queue: wake the consumer.
    Relayed,
    /// Tell the thread that it will be closed at `closes_at` unless something
    /// arrives.
    Warn { closes_at: u64 },
    /// The session is over: stop the other tasks and report the outcome.
    Finish(SessionOutcome),
}

impl Step {
    /// What the step says of the session: nothing while it simply goes on,
    /// that the warning is given, or why it is over.
    pub open spec fn outcome(self) -> Option<SessionOutcome> {
        match self {
            Step::Continue => None,
            Step::Relayed => None,
            Step::Warn { closes_at } => Some(SessionOutcome::TimeoutWarning),
            Step::Finish(outcome) => Some(outcome),
        }
    }

    /// What the step says of the session.
    pub fn report(&self) -> (outcome: Option<SessionOutcome>)
        ensures
            outcome == self.outcome(),
    {
        match self {
            Step::Continue => None,
            Step::Relayed => None,
            Step::Warn { closes_at: _ } => Some(SessionOutcome::TimeoutWarning),
            Step::Finish(outcome) => Some(*outcome),
        }
    }
}

/// The outcome of a session that ends because the task `arm` finished, with
/// `failure` if it failed. A failure that is not fatal does not count.
pub open spec fn arm_outcome(arm: Arm, failure: Option<SessionError>) -> SessionOutcome {
    match failure {
        Some(error) if error.fatal() => SessionOutcome::Error(error),
        _ => match arm {
            Arm::Gateway => SessionOutcome::GatewayClosed,
            Arm::Timeout => SessionOutcome::TimeoutFired,
            Arm::Consumer => SessionOutcome::ConsumerExhausted,
        },
    }
}

/// The view of the thread to watch, where one is named.
pub open spec fn named_thread(thread: Option<ThreadHandle>) -> Option<ThreadView> {
    match thread {
        Some(handle) => Some(handle@),
        None => None,
    }
}

/// Which setting keeps a session from starting, if any: the first that fails
/// of a positive time to the warning, a positive time from the warning to the
/// end, a thread to watch and a known automated identity.
pub open spec fn configuration_error(
    warning_duration: u64,
    timeout_duration: u64,
    thread: Option<ThreadView>,
    identity: Option<u64>,
) -> Option<ConfigurationError> {
    if warning_duration == 0 {
        Some(ConfigurationError::WarningNotPositive)
    } else if timeout_duration == 0 {
        Some(ConfigurationError::TimeoutNotPositive)
    } else if thread is None {
        Some(ConfigurationError::MissingThread)
    } else if identity is None {
        Some(ConfigurationError::MissingIdentity)
    } else {
        None
    }
}

/// What a [`SessionCoordinator`] holds, as a mathematical value.
pub struct SessionView {
    pub handler: HandlerView,
    pub queue: WatcherView,
    pub timeout: TimeoutView,
    /// Why the session ended, once it has.
    pub outcome: Option<SessionOutcome>,
}

impl SessionView {
    /// A session that starts at `now`.
    pub open spec fn start(
        warning_duration: u64,
        timeout_duration: u64,
        thread: ThreadView,
        identity: u64,
        now: u64,
    ) -> SessionView {
        SessionView {
            handler: HandlerView { identity, status: ThreadStatus::Active, failed: false },
            queue: WatcherView { thread, pending: Seq::empty(), closed: false },
            timeout: TimeoutView::start(warning_duration, timeout_duration, now),
            outcome: None,
        }
    }

    /// The session has ended.
    pub open spec fn over(self) -> bool {
        self.outcome is Some
    }

    /// What holds of every session from its start on. The durations are
    /// positive. While the session runs, the handler watches and the timer
    /// has not expired. Once it is over, the outcome is one that ends a
    /// session and the relay queue is closed.
    pub open spec fn wf(self) -> bool {
        &&& self.timeout.valid()
        &&& match self.outcome {
            Some(outcome) => outcome.terminal() && self.queue.closed,
            None => self.handler.watching() && self.timeout.stage != Stage::Expired,
        }
    }

    /// The session after it ended with `outcome`: the relay queue is closed,
    /// so that the consumer finds what still waits and then the end.
    pub open spec fn conclude(self, outcome: SessionOutcome) -> SessionView {
        SessionView { queue: self.queue.close(), outcome: Some(outcome), ..self }
    }

    /// The session after the handler answered `action` to an event: over
    /// where the handler asked for that, else as before.
    pub open spec fn settle(self, action: WatcherAction) -> SessionView {
        match action {
            WatcherAction::Shutdown(outcome) => self.conclude(outcome),
            _ => self,
        }
    }

    /// The step that the handler's answer `action` asks of the caller.
    pub open spec fn step_of(action: WatcherAction) -> Step {
        match action {
            WatcherAction::Ignored => Step::Continue,
            WatcherAction::Relayed => Step::Relayed,
            WatcherAction::Shutdown(outcome) => Step::Finish(outcome),
        }
    }

    /// The session after `message` arrived at `now`.
    pub open spec fn message(self, message: MessageView, now: u64) -> SessionView {
        if self.over() {
            self
        } else {
            let action = self.handler.message_action(self.queue, message);
            SessionView {
                handler: self.handler.after_message(self.queue, message),
                queue: self.handler.relay(self.queue, message),
                timeout: if action == WatcherAction::Relayed {
                    self.timeout.reset(now)
                } else {
                    self.timeout
                },
                ..self
            }.settle(action)
        }
    }

    /// What the caller has to do after `message` arrived.
    pub open spec fn message_step(self, message: MessageView) -> Step {
        if self.over() {
            Step::Continue
        } else {
            Self::step_of(self.handler.message_action(self.queue, message))
        }
    }

    /// The session after `status` was reported for `thread`.
    pub open spec fn report(self, thread: u64, status: ThreadStatus) -> SessionView {
        if self.over() {
            self
        } else {
            SessionView {
                handler: self.handler.after_report(self.queue.thread.id, thread, status),
                ..self
            }.settle(self.handler.report_action(self.queue.thread.id, thread, status))
        }
    }

    /// What the caller has to do after `status` was reported for `thread`.
    pub open spec fn report_step(self, thread: u64, status: ThreadStatus) -> Step {
        if self.over() {
            Step::Continue
        } else {
            Self::step_of(self.handler.report_action(self.queue.thread.id, thread, status))
        }
    }

    /// The session after the timer was polled at `now`.
    pub open spec fn poll_timeout(self, now: u64) -> SessionView {
        if self.over() {
            self
        } else {
            let polled = SessionView { timeout: self.timeout.poll(now), ..self };
            if self.timeout.effect(now) == TimeoutEffect::Terminate {
                polled.conclude(SessionOutcome::TimeoutFired)
            } else {
                polled
            }
        }
    }

    /// What the caller has to do after the timer was polled at `now`.
    pub open spec fn timeout_step(self, now: u64) -> Step {
        if self.over() {
            Step::Continue
        } else {
            match self.timeout.effect(now) {
                TimeoutEffect::Idle => Step::Continue,
                TimeoutEffect::Warning { closes_at } => Step::Warn { closes_at },
                TimeoutEffect::Terminate => Step::Finish(SessionOutcome::TimeoutFired),
            }
        }
    }

    /// The session after the task `arm` finished by itself.
    pub open spec fn finished(self, arm: Arm, failure: Option<SessionError>) -> SessionView {
        if self.over() {
            self
        } else {
            self.conclude(arm_outcome(arm, failure))
        }
    }

    /// What the caller has to do after the task `arm` finished by itself.
    pub open spec fn finished_step(self, arm: Arm, failure: Option<SessionError>) -> Step {
        if self.over() {
            Step::Continue
        } else {
            Step::Finish(arm_outcome(arm, failure))
        }
    }
}

/// What can happen to a session.
pub enum Event {
    /// A message arrived at the given time.
    Message(MessageView, u64),
    /// A lifecycle status was reported for a thread.
    Report(u64, ThreadStatus),
    /// The timer was polled at the given time.
    Poll(u64),
    /// A task finished by itself, with a failure if it failed.
    Finished(Arm, Option<SessionError>),
    /// The consumer asked for at most so many messages.
    Read(nat),
    /// The opening message was put into the relay queue.
    Seed(MessageView),
    /// The consumer let go of the relay queue.
    CloseQueue,
}

impl SessionView {
    /// The session after `event`.
    pub open spec fn on(self, event: Event) -> SessionView {
        match event {
            Event::Message(message, now) => self.message(message, now),
            Event::Report(thread, status) => self.report(thread, status),
            Event::Poll(now) => self.poll_timeout(now),
            Event::Finished(arm, failure) => self.finished(arm, failure),
            Event::Read(max_items) => SessionView {
                queue: self.queue.after_batch(max_items),
                ..self
            },
            Event::Seed(message) => SessionView { queue: self.queue.enqueue(message), ..self },
            Event::CloseQueue => SessionView { queue: self.queue.close(), ..self },
        }
    }

    /// The session after `events` happened one after another.
    pub open spec fn after(self, events: Seq<Event>) -> SessionView
        decreases events.len(),
    {
        if events.len() == 0 {
            self
        } else {
            self.after(events.drop_last()).on(events.last())
        }
    }
}

/// The state of one session and the entry points of its tasks.
pub struct SessionCoordinator {
    handler: ThreadEventHandler,
    watcher: ThreadWatcher,
    timeout: Timeout,
    outcome: Option<SessionOutcome>,
}

impl View for SessionCoordinator {
    type V = SessionView;

    closed spec fn view(&self) -> SessionView {
        SessionView {
            handler: self.handler@,
            queue: self.watcher@,
            timeout: self.timeout@,
            outcome: self.outcome,
        }
    }
}

impl SessionCoordinator {
    /// A session on `thread` for the automated identity `identity`, which
    /// starts at `now`. The durations have to be positive and both the thread
    /// and the identity have to be known.
    pub fn new(
        warning_duration: u64,
        timeout_duration: u64,
        thread: Option<ThreadHandle>,
        identity: Option<u64>,
        now: u64,
    ) -> (res: Result<Self, ConfigurationError>)
        ensures
            res is Err <==> configuration_error(
                warning_duration,
                timeout_duration,
                named_thread(thread),
                identity,
            ) is Some,
            res matches Err(error) ==> Some(error) == configuration_error(
                warning_duration,
                timeout_duration,
                named_thread(thread),
                identity,
            ),
            res matches Ok(session) ==> session@ == SessionView::start(
                warning_duration,
                timeout_duration,
                thread->0@,
                identity->0,
                now,
            ),
    {
        let timeout = match Timeout::new(warning_duration, timeout_duration, now) {
            Ok(timeout) => timeout,
            Err(error) => {
                return Err(error);
            },
        };
        let thread = match thread {
            Some(thread) => thread,
            None => {
                return Err(ConfigurationError::MissingThread);
            },
        };
        let identity = match identity {
            Some(identity) => identity,
            None => {
                return Err(ConfigurationError::MissingIdentity);
            },
        };
        Ok(
            SessionCoordinator {
                handler: ThreadEventHandler::new(identity),
                watcher: ThreadWatcher::new(thread),
                timeout,
                outcome: None,
            },
        )
    }

    /// Why the session ended; `None` while it runs.
    pub fn outcome(&self) -> (outcome: Option<SessionOutcome>)
        ensures
            outcome == self@.outcome,
    {
        self.outcome
    }

    /// The watched thread.
    pub fn thread(&self) -> (thread: &ThreadHandle)
        ensures
            thread@ == self@.queue.thread,
    {
        self.watcher.channel()
    }

    /// When the timer task has to ask again; `None` when it has nothing left
    /// to wait for.
    pub fn next_deadline(&self) -> (deadline: Option<u64>)
        ensures
            deadline == if self@.over() {
                None
            } else {
                self@.timeout.deadline_or_none()
            },
    {
        if self.outcome.is_some() {
            None
        } else {
            self.timeout.deadline()
        }
    }

    fn settle(&mut self, action: WatcherAction) -> (step: Step)
        requires
            old(self)@.outcome is None,
        ensures
            final(self)@ == old(self)@.settle(action),
            step == SessionView::step_of(action),
    {
        match action {
            WatcherAction::Ignored => Step::Continue,
            WatcherAction::Relayed => Step::Relayed,
            WatcherAction::Shutdown(outcome) => {
                self.watcher.close();
                self.outcome = Some(outcome);
                Step::Finish(outcome)
            },
        }
    }

    /// A message arrived on the watched thread at `now`.
    pub fn message(&mut self, message: ThreadMessage, now: u64) -> (step: Step)
        ensures
            final(self)@ == old(self)@.message(message@, now),
            step == old(self)@.message_step(message@),
    {
        if self.outcome.is_some() {
            return Step::Continue;
        }
        let action = self.handler.message(&mut self.watcher, message);
        if action == WatcherAction::Relayed {
            self.timeout.reset(now);
        }
        self.settle(action)
    }

    /// The gateway reported a lifecycle update of `thread`.
    pub fn thread_update(&mut self, thread: u64, metadata: Option<ThreadMetadata>) -> (step: Step)
        ensures
            metadata matches Some(data) ==> final(self)@ == old(self)@.report(thread, data.status())
                && step == old(self)@.report_step(thread, data.status()),
            metadata is None ==> final(self)@ == old(self)@ && step == Step::Continue,
    {
        if self.outcome.is_some() {
            return Step::Continue;
        }
        let action = self.handler.thread_update(&self.watcher, thread, metadata);
        self.settle(action)
    }

    /// The gateway reported that `thread` was deleted.
    pub fn thread_delete(&mut self, thread: u64) -> (step: Step)
        ensures
            final(self)@ == old(self)@.report(thread, ThreadStatus::Deleted),
            step == old(self)@.report_step(thread, ThreadStatus::Deleted),
    {
        if self.outcome.is_some() {
            return Step::Continue;
        }
        let action = self.handler.thread_delete(&self.watcher, thread);
        self.settle(action)
    }

    /// The timer task woke up at `now`.
    pub fn poll_timeout(&mut self, now: u64) -> (step: Step)
        ensures
            final(self)@ == old(self)@.poll_timeout(now),
            step == old(self)@.timeout_step(now),
    {
        if self.outcome.is_some() {
            return Step::Continue;
        }
        match self.timeout.run(now) {
            TimeoutEffect::Idle => Step::Continue,
            TimeoutEffect::Warning { closes_at } => Step::Warn { closes_at },
            TimeoutEffect::Terminate => {
                self.watcher.close();
                self.outcome = Some(SessionOutcome::TimeoutFired);
                Step::Finish(SessionOutcome::TimeoutFired)
            },
        }
    }

    /// The task `arm` finished by itself, with `failure` if it failed.
    pub fn finished(&mut self, arm: Arm, failure: Option<SessionError>) -> (step: Step)
        ensures
            final(self)@ == old(self)@.finished(arm, failure),
            step == old(self)@.finished_step(arm, failure),
    {
        if self.outcome.is_some() {
            return Step::Continue;
        }
        let outcome = match failure {
            Some(error) if error.is_fatal() => SessionOutcome::Error(error),
            _ => match arm {
                Arm::Gateway => SessionOutcome::GatewayClosed,
                Arm::Timeout => SessionOutcome::TimeoutFired,
                Arm::Consumer => SessionOutcome::ConsumerExhausted,
            },
        };
        self.watcher.close();
        self.outcome = Some(outcome);
        Step::Finish(outcome)
    }

    /// The consumer asks for up to `max_items` messages.
    pub fn dequeue_batch(&mut self, max_items: usize) -> (res: Batch)
        ensures
            final(self)@ == (SessionView {
                queue: old(self)@.queue.after_batch(max_items as nat),
                ..old(self)@
            }),
            res is Messages <==> old(self)@.queue.batch_len(max_items as nat) > 0,
            res is Closed <==> old(self)@.queue.reads_closed(max_items as nat),
            res matches Batch::Messages(items) ==> message_views(items@) == old(
                self,
            )@.queue.batch(max_items as nat),
    {
        self.watcher.dequeue_batch(max_items)
    }

    /// Puts the message that opened the thread into the relay queue, whoever
    /// wrote it. The timer is not touched: the session has only begun.
    pub fn seed(&mut self, opening: ThreadMessage) -> (res: Result<(), QueueClosedError>)
        ensures
            final(self)@ == (SessionView {
                queue: old(self)@.queue.enqueue(opening@),
                ..old(self)@
            }),
            res is Err <==> old(self)@.queue.closed,
            res matches Err(e) ==> e.rejected == opening,
    {
        self.watcher.enqueue(opening)
    }

    /// The warning to give when the timer asks for it at the Unix time
    /// `unix_now`, in seconds: it names the time at which the thread will be
    /// closed.
    pub fn warning_notice(&self, unix_now: i64) -> (notice: Notice)
        ensures
            notice@ == (NoticeView {
                title: warning_title(),
                description: warning_description(
                    closing_time(unix_now, self@.timeout.timeout_duration),
                ),
            }),
    {
        self.timeout.send_timeout_warning(unix_now)
    }

    /// The notice to give when the timer has ended the session.
    pub fn timeout_notice(&self) -> (notice: Notice)
        ensures
            notice@ == (NoticeView { title: timeout_title(), description: timeout_description() }),
    {
        self.timeout.send_timeout_message()
    }

    /// The consumer let go of the relay queue without saying that it is done.
    /// The next message that would be relayed ends the session.
    pub fn close_queue(&mut self)
        ensures
            final(self)@ == (SessionView { queue: old(self)@.queue.close(), ..old(self)@ }),
    {
        self.watcher.close();
    }
}

/// No event takes the well-formedness of a session away.
pub proof fn lemma_session_stays_well_formed(
    session: SessionView,
    message: MessageView,
    thread: u64,
    status: ThreadStatus,
    arm: Arm,
    failure: Option<SessionError>,
    max_items: nat,
    now: u64,
)
    requires
        session.wf(),
    ensures
        session.message(message, now).wf(),
        session.report(thread, status).wf(),
        session.poll_timeout(now).wf(),
        session.finished(arm, failure).wf(),
        (SessionView { queue: session.queue.after_batch(max_items), ..session }).wf(),
        (SessionView { queue: session.queue.close(), ..session }).wf(),
        (SessionView { queue: session.queue.enqueue(message), ..session }).wf(),
{
}

/// A session with positive durations starts well-formed: it runs, its
/// handler watches, its queue is open and empty and its timer waits for the
/// warning.
pub proof fn lemma_session_starts_well_formed(
    warning_duration: u64,
    timeout_duration: u64,
    thread: ThreadView,
    identity: u64,
    now: u64,
)
    requires
        warning_duration > 0,
        timeout_duration > 0,
    ensures
        SessionView::start(warning_duration, timeout_duration, thread, identity, now).wf(),
        !SessionView::start(warning_duration, timeout_duration, thread, identity, now).over(),
{
}

/// The first end is the end. Once a session has an outcome, no message, no
/// lifecycle report, no poll of the timer and no task that finishes changes
/// anything: the outcome stays, nothing more is relayed, and the caller is
/// asked for nothing.
pub proof fn lemma_outcome_is_final(
    session: SessionView,
    message: MessageView,
    thread: u64,
    status: ThreadStatus,
    arm: Arm,
    failure: Option<SessionError>,
    now: u64,
)
    requires
        session.over(),
    ensures
        session.message(message, now) == session,
        session.message_step(message) == Step::Continue,
        session.report(thread, status) == session,
        session.report_step(thread, status) == Step::Continue,
        session.poll_timeout(now) == session,
        session.timeout_step(now) == Step::Continue,
        session.finished(arm, failure) == session,
        session.finished_step(arm, failure) == Step::Continue,
{
}

/// A report that the watched thread was archived, locked or deleted ends the
/// session at once with `GatewayClosed`. What waited in the relay queue can
/// still be read, but nothing is written to it any more, whatever arrives,
/// and the timer asks for neither the warning nor the end.
pub proof fn lemma_lifecycle_end_is_immediate(
    session: SessionView,
    status: ThreadStatus,
    message: MessageView,
    now: u64,
)
    requires
        session.wf(),
        !session.over(),
        status != ThreadStatus::Active,
    ensures
        ({
            let ended = session.report(session.queue.thread.id, status);
            &&& session.report_step(session.queue.thread.id, status) == Step::Finish(
                SessionOutcome::GatewayClosed,
            )
            &&& ended.outcome == Some(SessionOutcome::GatewayClosed)
            &&& ended.queue.closed && ended.queue.pending == session.queue.pending
            &&& ended.message(message, now) == ended
            &&& ended.message_step(message) == Step::Continue
            &&& ended.poll_timeout(now) == ended
            &&& ended.timeout_step(now) == Step::Continue
        }),
{
}

/// A report about another thread, or one that says the watched thread is
/// neither archived nor locked, changes nothing.
pub proof fn lemma_other_reports_are_ignored(session: SessionView, thread: u64, status: ThreadStatus)
    requires
        thread != session.queue.thread.id || status == ThreadStatus::Active,
    ensures
        session.report(thread, status) == session,
        session.report_step(thread, status) == Step::Continue,
{
}

/// A message that is relayed restarts the timer at the time of its arrival,
/// at whichever stage the timer was. A message of the automated identity is
/// neither relayed nor does it touch the timer.
pub proof fn lemma_relayed_message_restarts_timer(
    session: SessionView,
    message: MessageView,
    now: u64,
)
    requires
        session.wf(),
        !session.over(),
    ensures
        message.sender == session.handler.identity ==> session.message(message, now) == session
            && session.message_step(message) == Step::Continue,
        message.sender != session.handler.identity && !session.queue.closed ==> session.message(
            message,
            now,
        ) == (SessionView {
            queue: session.queue.enqueue(message),
            timeout: session.timeout.reset(now),
            ..session
        }) && session.message_step(message) == Step::Relayed && session.message(
            message,
            now,
        ).timeout.stage == Stage::WaitingWarning,
        message.sender != session.handler.identity && session.queue.closed
            ==> session.message_step(message) == Step::Finish(
            SessionOutcome::Error(SessionError::QueueClosed),
        ) && session.message(message, now).outcome == Some(
            SessionOutcome::Error(SessionError::QueueClosed),
        ) && session.message(message, now).queue == session.queue,
{
}

/// After a message was relayed at `at`, the session asks for no warning
/// until a full `warning_duration` has passed since `at`, however close the
/// warning or the end had been before. When that time has passed, it asks
/// for the warning.
pub proof fn lemma_relayed_message_postpones_warning(
    session: SessionView,
    message: MessageView,
    at: u64,
    now: u64,
)
    requires
        session.wf(),
        !session.over(),
        !session.queue.closed,
        message.sender != session.handler.identity,
    ensures
        ({
            let relayed = session.message(message, at);
            let due = instant_after(at, session.timeout.warning_duration);
            &&& relayed.timeout.deadline == due
            &&& now < due ==> relayed.timeout_step(now) == Step::Continue && relayed.poll_timeout(
                now,
            ) == relayed
            &&& relayed.timeout_step(due) is Warn
        }),
{
}

/// A session in which nothing happens but the passing of time gives the
/// warning when `warning_duration` has passed since its start, ends with
/// `TimeoutFired` when `timeout_duration` has passed since the warning, and
/// asks for nothing before, between and after. Once it has ended, a message
/// that arrives is not relayed.
pub proof fn lemma_quiet_session_times_out(
    warning_duration: u64,
    timeout_duration: u64,
    thread: ThreadView,
    identity: u64,
    start: u64,
    early: u64,
    between: u64,
    late: u64,
    message: MessageView,
)
    requires
        warning_duration > 0,
        timeout_duration > 0,
    ensures
        ({
            let first = instant_after(start, warning_duration);
            let last = instant_after(first, timeout_duration);
            let began = SessionView::start(
                warning_duration,
                timeout_duration,
                thread,
                identity,
                start,
            );
            let warned = began.poll_timeout(first);
            let ended = warned.poll_timeout(last);
            &&& early < first ==> began.timeout_step(early) == Step::Continue
                && began.poll_timeout(early) == began
            &&& began.timeout_step(first) == Step::Warn { closes_at: last }
            &&& !warned.over()
            &&& between < last ==> warned.timeout_step(between) == Step::Continue
                && warned.poll_timeout(between) == warned
            &&& warned.timeout_step(last) == Step::Finish(SessionOutcome::TimeoutFired)
            &&& ended.outcome == Some(SessionOutcome::TimeoutFired)
            &&& ended.timeout_step(late) == Step::Continue
            &&& ended.message(message, late) == ended
            &&& ended.message_step(message) == Step::Continue
            &&& start + warning_duration + timeout_duration <= u64::MAX ==> first == start
                + warning_duration && last == start + warning_duration + timeout_duration
        }),
{
}

/// The timer that runs out ends the session with `TimeoutFired`, and only
/// the second of its two deadlines does: the first asks for the warning and
/// leaves the session running.
pub proof fn lemma_timeout_ends_session(session: SessionView, now: u64)
    requires
        session.wf(),
        !session.over(),
    ensures
        session.timeout.effect(now) is Warning ==> !session.poll_timeout(now).over()
            && session.timeout_step(now) is Warn,
        session.timeout.effect(now) == TimeoutEffect::Idle ==> session.poll_timeout(now)
            == session && session.timeout_step(now) == Step::Continue,
        session.timeout.effect(now) == TimeoutEffect::Terminate ==> session.poll_timeout(
            now,
        ).outcome == Some(SessionOutcome::TimeoutFired) && session.timeout_step(now)
            == Step::Finish(SessionOutcome::TimeoutFired),
{
}

/// Of the tasks that finish, the first decides: the session gets the outcome
/// of that task, an outcome that ends a session, and a task that finishes
/// later changes nothing.
pub proof fn lemma_first_to_finish_wins(
    session: SessionView,
    first: Arm,
    failure: Option<SessionError>,
    second: Arm,
    later_failure: Option<SessionError>,
)
    requires
        !session.over(),
    ensures
        session.finished(first, failure).outcome == Some(arm_outcome(first, failure)),
        arm_outcome(first, failure).terminal(),
        session.finished(first, failure).queue == session.queue.close(),
        session.finished(first, failure).finished(second, later_failure) == session.finished(
            first,
            failure,
        ),
{
}

/// Whatever happens to a session, in whatever order, it stays well-formed;
/// once it is over its outcome never changes, and from then on nothing is
/// written to the relay queue: what waits in it can only get less.
pub proof fn lemma_whatever_happens(session: SessionView, events: Seq<Event>)
    requires
        session.wf(),
    ensures
        session.after(events).wf(),
        session.over() ==> session.after(events).outcome == session.outcome,
        session.over() ==> session.after(events).queue.pending.len()
            <= session.queue.pending.len(),
        session.over() ==> session.after(events).handler == session.handler
            && session.after(events).timeout == session.timeout,
    decreases events.len(),
{
    if events.len() > 0 {
        lemma_whatever_happens(session, events.drop_last());
    }
}

} // verus!
