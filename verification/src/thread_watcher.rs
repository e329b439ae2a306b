//! The watched thread and its relay queue.
//!
//! Accepted messages wait in an unbounded channel of `tokio` until the
//! consumer takes them, oldest first. The channel is the store; what is put
//! into it and when, how a batch is formed and what closing means is decided
//! here.

use vstd::prelude::*;
use crate::outcome::{SessionError, SessionOutcome};
use crate::thread_message::{MessageView, ThreadMessage};

verus! {

/// The sending half of an unbounded channel of `tokio`, of which nothing is
/// known here but what the functions below say.
#[verifier::external_type_specification]
#[verifier::external_body]
#[verifier::reject_recursive_types(T)]
pub struct ExUnboundedSender<T>(tokio::sync::mpsc::UnboundedSender<T>);

/// The receiving half of an unbounded channel of `tokio`, of which nothing
/// is known here but what the functions below say.
#[verifier::external_type_specification]
#[verifier::external_body]
#[verifier::reject_recursive_types(T)]
pub struct ExUnboundedReceiver<T>(tokio::sync::mpsc::UnboundedReceiver<T>);

/// The messages that wait in the channel behind `receiver`, oldest first.
pub uninterp spec fn relay_pending(
    receiver: tokio::sync::mpsc::UnboundedReceiver<ThreadMessage>,
) -> Seq<MessageView>;

/// Whether the receiving half `receiver` has been closed.
pub uninterp spec fn relay_closed(
    receiver: tokio::sync::mpsc::UnboundedReceiver<ThreadMessage>,
) -> bool;

/// The views of a sequence of messages, in the same order.
pub open spec fn message_views(messages: Seq<ThreadMessage>) -> Seq<MessageView> {
    messages.map_values(|m: ThreadMessage| m@)
}

/// What a [`ThreadHandle`] holds, as a mathematical value.
pub struct ThreadView {
    pub id: u64,
    pub title: Seq<char>,
    pub owner: u64,
}

/// A reference to a conversation thread, which the gateway owns: its stable
/// identifier, its title and the identifier of its owner.
pub struct ThreadHandle {
    pub id: u64,
    pub title: String,
    pub owner: u64,
}

impl View for ThreadHandle {
    type V = ThreadView;

    open spec fn view(&self) -> ThreadView {
        ThreadView { id: self.id, title: self.title@, owner: self.owner }
    }
}

/// What a [`ThreadWatcher`] holds, as a mathematical value.
pub struct WatcherView {
    /// The watched thread.
    pub thread: ThreadView,
    /// The messages that were accepted and not yet taken, oldest first.
    pub pending: Seq<MessageView>,
    /// Whether the reading side has been closed.
    pub closed: bool,
}

impl WatcherView {
    /// The queue after `message` was accepted: unchanged once closed, else
    /// with `message` behind all that waited before.
    pub open spec fn enqueue(self, message: MessageView) -> WatcherView {
        if self.closed {
            self
        } else {
            WatcherView { pending: self.pending.push(message), ..self }
        }
    }

    /// How many messages a read that asks for at most `max_items` takes.
    pub open spec fn batch_len(self, max_items: nat) -> nat {
        if max_items <= self.pending.len() {
            max_items
        } else {
            self.pending.len()
        }
    }

    /// The messages that a read for at most `max_items` hands out.
    pub open spec fn batch(self, max_items: nat) -> Seq<MessageView> {
        self.pending.take(self.batch_len(max_items) as int)
    }

    /// The queue after a read for at most `max_items`.
    pub open spec fn after_batch(self, max_items: nat) -> WatcherView {
        WatcherView { pending: self.pending.skip(self.batch_len(max_items) as int), ..self }
    }

    /// The queue after its reading side was closed.
    pub open spec fn close(self) -> WatcherView {
        WatcherView { closed: true, ..self }
    }

    /// Closed, with nothing left to take.
    pub open spec fn drained(self) -> bool {
        self.closed && self.pending.len() == 0
    }

    /// Whether a read for at most `max_items` learns that the queue is
    /// closed and empty. A read for no items learns nothing.
    pub open spec fn reads_closed(self, max_items: nat) -> bool {
        max_items > 0 && self.drained()
    }
}

/// The error of [`ThreadWatcher::enqueue`] on a closed queue. It carries the
/// message that was not accepted, so that nothing is lost silently.
pub struct QueueClosedError {
    pub rejected: ThreadMessage,
}

/// What one read of the queue found.
pub enum Batch {
    /// At least one message, oldest first.
    Messages(Vec<ThreadMessage>),
    /// Nothing waits, and the queue is open: the reader has to wait.
    Empty,
    /// The queue is closed and everything that waited was handed out.
    Closed,
}

/// What one attempt to take a message from the channel found.
enum Polled {
    Message(ThreadMessage),
    Empty,
    Disconnected,
}

/// The watched thread and its relay queue: an unbounded queue of the
/// messages that were accepted, which one consumer reads in batches, oldest
/// first. Closing it is final.
pub struct ThreadWatcher {
    channel: ThreadHandle,
    sender: tokio::sync::mpsc::UnboundedSender<ThreadMessage>,
    receiver: tokio::sync::mpsc::UnboundedReceiver<ThreadMessage>,
}

impl View for ThreadWatcher {
    type V = WatcherView;

    closed spec fn view(&self) -> WatcherView {
        WatcherView {
            thread: self.channel@,
            pending: relay_pending(self.receiver),
            closed: relay_closed(self.receiver),
        }
    }
}

/// Calls `tokio::sync::mpsc::unbounded_channel`. A new channel holds no
/// message and its receiving half is open.
#[verifier::external_body]
fn channel_open() -> (ends: (
    tokio::sync::mpsc::UnboundedSender<ThreadMessage>,
    tokio::sync::mpsc::UnboundedReceiver<ThreadMessage>,
))
    ensures
        relay_pending(ends.1) == Seq::<MessageView>::empty(),
        !relay_closed(ends.1),
{
    tokio::sync::mpsc::unbounded_channel()
}

/// Calls `UnboundedSender::send` on the sending half of `watcher`. The two
/// halves of a watcher are those of one channel, and neither is ever handed
/// out or cloned, so what the send does shows on the receiving half. The
/// send fails if and only if the receiving half was closed. On failure the
/// message comes back and the channel is as before; on success the message
/// stands behind the messages that waited.
#[verifier::external_body]
fn channel_send(watcher: &mut ThreadWatcher, message: ThreadMessage) -> (res: Result<(), ThreadMessage>)
    ensures
        final(watcher).channel == old(watcher).channel,
        relay_closed(final(watcher).receiver) == relay_closed(old(watcher).receiver),
        res is Err <==> relay_closed(old(watcher).receiver),
        res matches Err(rejected) ==> rejected == message && relay_pending(final(watcher).receiver)
            == relay_pending(old(watcher).receiver),
        res is Ok ==> relay_pending(final(watcher).receiver) == relay_pending(
            old(watcher).receiver,
        ).push(message@),
{
    watcher.sender.send(message).map_err(|e| e.0)
}

/// Calls `UnboundedReceiver::try_recv` on the receiving half of `watcher`.
/// While a message waits, the oldest one is taken out and returned. With none
/// waiting the channel is left as it is, and the answer is `Disconnected`
/// when the receiving half was closed and `Empty` when it was not.
#[verifier::external_body]
fn channel_try_recv(watcher: &mut ThreadWatcher) -> (res: Polled)
    ensures
        final(watcher).channel == old(watcher).channel,
        relay_closed(final(watcher).receiver) == relay_closed(old(watcher).receiver),
        res is Message <==> relay_pending(old(watcher).receiver).len() > 0,
        res is Disconnected <==> relay_pending(old(watcher).receiver).len() == 0 && relay_closed(
            old(watcher).receiver,
        ),
        res matches Polled::Message(message) ==> message@ == relay_pending(
            old(watcher).receiver,
        )[0] && relay_pending(final(watcher).receiver) == relay_pending(
            old(watcher).receiver,
        ).skip(1),
        !(res is Message) ==> relay_pending(final(watcher).receiver) == relay_pending(
            old(watcher).receiver,
        ),
{
    match watcher.receiver.try_recv() {
        Ok(message) => Polled::Message(message),
        Err(tokio::sync::mpsc::error::TryRecvError::Empty) => Polled::Empty,
        Err(tokio::sync::mpsc::error::TryRecvError::Disconnected) => Polled::Disconnected,
    }
}

/// Calls `UnboundedReceiver::close` on the receiving half of `watcher`. The
/// channel is closed from then on; the messages that wait stay where they
/// are.
#[verifier::external_body]
fn channel_close(watcher: &mut ThreadWatcher)
    ensures
        final(watcher).channel == old(watcher).channel,
        relay_closed(final(watcher).receiver),
        relay_pending(final(watcher).receiver) == relay_pending(old(watcher).receiver),
{
    watcher.receiver.close()
}

impl ThreadWatcher {
    /// A watcher for the thread `channel`, with an open and empty queue.
    pub fn new(channel: ThreadHandle) -> (watcher: Self)
        ensures
            watcher@ == (WatcherView {
                thread: channel@,
                pending: Seq::<MessageView>::empty(),
                closed: false,
            }),
    {
        let (sender, receiver) = channel_open();
        ThreadWatcher { channel, sender, receiver }
    }

    /// The watched thread.
    pub fn channel(&self) -> (channel: &ThreadHandle)
        ensures
            channel@ == self@.thread,
    {
        &self.channel
    }

    /// Puts `message` behind the messages that wait. This never blocks. On a
    /// closed queue the message is not stored: it comes back in the error.
    pub fn enqueue(&mut self, message: ThreadMessage) -> (res: Result<(), QueueClosedError>)
        ensures
            final(self)@ == old(self)@.enqueue(message@),
            res is Err <==> old(self)@.closed,
            res matches Err(e) ==> e.rejected == message,
    {
        match channel_send(self, message) {
            Ok(()) => Ok(()),
            Err(rejected) => Err(QueueClosedError { rejected }),
        }
    }

    /// Takes up to `max_items` of the messages that wait, oldest first, and
    /// never waits itself. With nothing to hand out it says whether waiting
    /// can help: `Empty` on an open queue, `Closed` on a closed one. A read for
    /// no items takes nothing and answers `Empty`.
    pub fn dequeue_batch(&mut self, max_items: usize) -> (res: Batch)
        ensures
            final(self)@ == old(self)@.after_batch(max_items as nat),
            res is Messages <==> old(self)@.batch_len(max_items as nat) > 0,
            res is Closed <==> old(self)@.reads_closed(max_items as nat),
            res matches Batch::Messages(items) ==> message_views(items@) == old(self)@.batch(
                max_items as nat,
            ),
    {
        let ghost before = self@;
        let mut items: Vec<ThreadMessage> = Vec::new();
        let mut closed = false;
        assert(message_views(items@) =~= before.pending.take(0));
        assert(before.pending.skip(0) =~= before.pending);
        while items.len() < max_items
            invariant_except_break
                !closed,
            invariant
                self@.thread == before.thread,
                self@.closed == before.closed,
                items.len() <= max_items,
                items.len() <= before.pending.len(),
                message_views(items@) == before.pending.take(items.len() as int),
                self@.pending == before.pending.skip(items.len() as int),
            ensures
                items.len() == before.batch_len(max_items as nat),
                items.len() == 0 ==> (closed <==> max_items > 0 && before.closed),
            decreases max_items - items.len(),
        {
            let ghost taken = items@;
            match channel_try_recv(self) {
                Polled::Message(message) => {
                    items.push(message);
                    proof {
                        let k = taken.len() as int;
                        assert(before.pending.skip(k)[0] == before.pending[k]);
                        assert(before.pending.skip(k).skip(1) =~= before.pending.skip(k + 1));
                        assert(message_views(items@) =~= message_views(taken).push(message@));
                        assert(before.pending.take(k + 1) =~= before.pending.take(k).push(
                            before.pending[k],
                        ));
                    }
                },
                Polled::Empty => {
                    break ;
                },
                Polled::Disconnected => {
                    closed = true;
                    break ;
                },
            }
        }
        if items.len() > 0 {
            Batch::Messages(items)
        } else if closed {
            Batch::Closed
        } else {
            Batch::Empty
        }
    }

    /// Closes the reading side, for good. Messages that wait can still be
    /// taken; no new one is accepted.
    pub fn close(&mut self)
        ensures
            final(self)@ == old(self)@.close(),
    {
        channel_close(self);
    }
}

/// The lifecycle status of a thread, as the gateway last reported it.
#[derive(Clone, Copy, Debug, PartialEq, Eq, Structural)]
pub enum ThreadStatus {
    Active,
    Archived,
    Locked,
    Deleted,
}

/// What a lifecycle update says of a thread.
#[derive(Clone, Copy, Debug, PartialEq, Eq, Structural)]
pub struct ThreadMetadata {
    pub archived: bool,
    pub locked: bool,
}

impl ThreadMetadata {
    /// The status that this report amounts to. A thread that is both archived
    /// and locked counts as archived.
    pub open spec fn status(self) -> ThreadStatus {
        if self.archived {
            ThreadStatus::Archived
        } else if self.locked {
            ThreadStatus::Locked
        } else {
            ThreadStatus::Active
        }
    }
}

/// What the handler did with an event, and what is left for the caller to do.
#[derive(Clone, Copy, Debug, PartialEq, Eq, Structural)]
pub enum WatcherAction {
    /// The event changed nothing.
    Ignored,
    /// The message is in the relay queue: restart the inactivity timer.
    Relayed,
    /// The session is over, for the reason given.
    Shutdown(SessionOutcome),
}

/// What a [`ThreadEventHandler`] holds, as a mathematical value.
pub struct HandlerView {
    /// The automated identity, whose own messages are not relayed.
    pub identity: u64,
    /// The status of the watched thread, as last reported.
    pub status: ThreadStatus,
    /// Whether the relay queue refused a message.
    pub failed: bool,
}

impl HandlerView {
    /// The handler still processes events: the thread is active and the queue
    /// took every message so far.
    pub open spec fn watching(self) -> bool {
        self.status == ThreadStatus::Active && !self.failed
    }

    /// Whether `message` is relayed: the handler is watching and the message
    /// was not written by the automated identity.
    pub open spec fn accepts(self, message: MessageView) -> bool {
        self.watching() && message.sender != self.identity
    }

    /// The handler after `message` arrived while the queue was `queue`.
    pub open spec fn after_message(self, queue: WatcherView, message: MessageView) -> HandlerView {
        if self.accepts(message) && queue.closed {
            HandlerView { failed: true, ..self }
        } else {
            self
        }
    }

    /// The queue after `message` arrived.
    pub open spec fn relay(self, queue: WatcherView, message: MessageView) -> WatcherView {
        if self.accepts(message) {
            queue.enqueue(message)
        } else {
            queue
        }
    }

    /// What the handler answers when `message` arrives.
    pub open spec fn message_action(self, queue: WatcherView, message: MessageView) -> WatcherAction {
        if !self.accepts(message) {
            WatcherAction::Ignored
        } else if queue.closed {
            WatcherAction::Shutdown(SessionOutcome::Error(SessionError::QueueClosed))
        } else {
            WatcherAction::Relayed
        }
    }

    /// Whether a report of `status` for `thread` ends the watch on `watched`.
    pub open spec fn ends_watch(self, watched: u64, thread: u64, status: ThreadStatus) -> bool {
        self.watching() && thread == watched && status != ThreadStatus::Active
    }

    /// The handler after `status` was reported for `thread`.
    pub open spec fn after_report(self, watched: u64, thread: u64, status: ThreadStatus) -> HandlerView {
        if self.ends_watch(watched, thread, status) {
            HandlerView { status, ..self }
        } else {
            self
        }
    }

    /// What the handler answers when `status` is reported for `thread`.
    pub open spec fn report_action(self, watched: u64, thread: u64, status: ThreadStatus) -> WatcherAction {
        if self.ends_watch(watched, thread, status) {
            WatcherAction::Shutdown(SessionOutcome::GatewayClosed)
        } else {
            WatcherAction::Ignored
        }
    }
}

/// Turns what the gateway tells into writes to the relay queue and into the
/// end of the session.
///
/// A message of the watched thread is relayed unless the automated identity
/// wrote it. A report that the watched thread was archived, locked or deleted
/// ends the session, and so does a queue that takes no more messages. After
/// that the handler ignores whatever comes: it asks for a shutdown once.
pub struct ThreadEventHandler {
    identity: u64,
    status: ThreadStatus,
    failed: bool,
}

impl View for ThreadEventHandler {
    type V = HandlerView;

    closed spec fn view(&self) -> HandlerView {
        HandlerView { identity: self.identity, status: self.status, failed: self.failed }
    }
}

impl ThreadEventHandler {
    /// A handler that watches an active thread on behalf of `identity`.
    pub fn new(identity: u64) -> (handler: Self)
        ensures
            handler@ == (HandlerView { identity, status: ThreadStatus::Active, failed: false }),
    {
        ThreadEventHandler { identity, status: ThreadStatus::Active, failed: false }
    }

    /// The automated identity.
    pub fn identity(&self) -> (identity: u64)
        ensures
            identity == self@.identity,
    {
        self.identity
    }

    /// The status of the watched thread, as last reported.
    pub fn status(&self) -> (status: ThreadStatus)
        ensures
            status == self@.status,
    {
        self.status
    }

    /// Whether the handler still processes events.
    pub fn is_watching(&self) -> (watching: bool)
        ensures
            watching == self@.watching(),
    {
        self.status == ThreadStatus::Active && !self.failed
    }

    /// A message arrived on the watched thread.
    pub fn message(
        &mut self,
        watcher: &mut ThreadWatcher,
        message: ThreadMessage,
    ) -> (action: WatcherAction)
        ensures
            action == old(self)@.message_action(old(watcher)@, message@),
            final(self)@ == old(self)@.after_message(old(watcher)@, message@),
            final(watcher)@ == old(self)@.relay(old(watcher)@, message@),
    {
        if !self.is_watching() || message.sender() == self.identity {
            return WatcherAction::Ignored;
        }
        match watcher.enqueue(message) {
            Ok(()) => WatcherAction::Relayed,
            Err(_) => {
                self.failed = true;
                WatcherAction::Shutdown(SessionOutcome::Error(SessionError::QueueClosed))
            },
        }
    }

    /// The gateway reported a lifecycle update of `thread`. `metadata` is
    /// what the update says of archiving and locking, if it says anything.
    pub fn thread_update(
        &mut self,
        watcher: &ThreadWatcher,
        thread: u64,
        metadata: Option<ThreadMetadata>,
    ) -> (action: WatcherAction)
        ensures
            metadata matches Some(data) ==> action == old(self)@.report_action(
                watcher@.thread.id,
                thread,
                data.status(),
            ) && final(self)@ == old(self)@.after_report(watcher@.thread.id, thread, data.status()),
            metadata is None ==> action == WatcherAction::Ignored && final(self)@ == old(self)@,
    {
        match metadata {
            Some(data) => {
                let status = if data.archived {
                    ThreadStatus::Archived
                } else if data.locked {
                    ThreadStatus::Locked
                } else {
                    ThreadStatus::Active
                };
                self.report(watcher, thread, status)
            },
            None => WatcherAction::Ignored,
        }
    }

    /// The gateway reported that `thread` was deleted.
    pub fn thread_delete(&mut self, watcher: &ThreadWatcher, thread: u64) -> (action: WatcherAction)
        ensures
            action == old(self)@.report_action(watcher@.thread.id, thread, ThreadStatus::Deleted),
            final(self)@ == old(self)@.after_report(
                watcher@.thread.id,
                thread,
                ThreadStatus::Deleted,
            ),
    {
        self.report(watcher, thread, ThreadStatus::Deleted)
    }

    fn report(
        &mut self,
        watcher: &ThreadWatcher,
        thread: u64,
        status: ThreadStatus,
    ) -> (action: WatcherAction)
        ensures
            action == old(self)@.report_action(watcher@.thread.id, thread, status),
            final(self)@ == old(self)@.after_report(watcher@.thread.id, thread, status),
    {
        if self.is_watching() && thread == watcher.channel().id && status != ThreadStatus::Active {
            self.status = status;
            WatcherAction::Shutdown(SessionOutcome::GatewayClosed)
        } else {
            WatcherAction::Ignored
        }
    }
}

impl HandlerView {
    /// The handler and the queue after `messages` arrived one after another.
    pub open spec fn deliver(self, queue: WatcherView, messages: Seq<MessageView>) -> (
        HandlerView,
        WatcherView,
    )
        decreases messages.len(),
    {
        if messages.len() == 0 {
            (self, queue)
        } else {
            let (handler, relayed) = self.deliver(queue, messages.drop_last());
            (
                handler.after_message(relayed, messages.last()),
                handler.relay(relayed, messages.last()),
            )
        }
    }
}

impl WatcherView {
    /// What a reader gets who takes batches of at most `max_items` until
    /// nothing waits.
    pub open spec fn drain(self, max_items: nat) -> Seq<MessageView>
        decreases self.pending.len(),
    {
        if max_items == 0 || self.pending.len() == 0 {
            Seq::empty()
        } else {
            self.batch(max_items) + self.after_batch(max_items).drain(max_items)
        }
    }
}

/// A batch holds at least one message where one waits and one is asked for,
/// never more than were asked for, and what it takes is gone from the queue:
/// the batch followed by what is left is what waited.
pub proof fn lemma_batch_splits_pending(queue: WatcherView, max_items: nat)
    ensures
        queue.batch(max_items) + queue.after_batch(max_items).pending == queue.pending,
        queue.batch(max_items).len() == queue.batch_len(max_items),
        queue.batch_len(max_items) <= max_items,
        max_items > 0 && queue.pending.len() > 0 ==> queue.batch_len(max_items) >= 1,
        queue.after_batch(max_items).closed == queue.closed,
{
    assert(queue.batch(max_items) + queue.after_batch(max_items).pending =~= queue.pending);
}

/// Reading in batches hands out every message that waits, once, oldest
/// first, whatever the size of the batches.
pub proof fn lemma_drain_yields_pending(queue: WatcherView, max_items: nat)
    requires
        max_items > 0,
    ensures
        queue.drain(max_items) == queue.pending,
    decreases queue.pending.len(),
{
    if queue.pending.len() > 0 {
        lemma_batch_splits_pending(queue, max_items);
        lemma_drain_yields_pending(queue.after_batch(max_items), max_items);
    } else {
        assert(queue.drain(max_items) =~= queue.pending);
    }
}

/// Messages that arrive at a watching handler with an open queue are relayed
/// in the order of their arrival, none twice and none dropped, but for those
/// that the automated identity wrote, which are left out: behind what waited
/// before, the queue holds the arrived messages of all other senders. The
/// handler goes on watching and the queue stays open.
pub proof fn lemma_relay_keeps_order(
    handler: HandlerView,
    queue: WatcherView,
    messages: Seq<MessageView>,
)
    requires
        handler.watching(),
        !queue.closed,
    ensures
        handler.deliver(queue, messages).0 == handler,
        handler.deliver(queue, messages).1 == (WatcherView {
            pending: queue.pending + messages.filter(
                |m: MessageView| m.sender != handler.identity,
            ),
            ..queue
        }),
    decreases messages.len(),
{
    let others = |m: MessageView| m.sender != handler.identity;
    reveal(Seq::filter);
    if messages.len() == 0 {
        assert(queue.pending + messages.filter(others) =~= queue.pending);
    } else {
        lemma_relay_keeps_order(handler, queue, messages.drop_last());
        let before = messages.drop_last().filter(others);
        if others(messages.last()) {
            assert(messages.filter(others) == before.push(messages.last()));
            assert(queue.pending + before.push(messages.last()) =~= (queue.pending + before).push(
                messages.last(),
            ));
        } else {
            assert(messages.filter(others) == before);
        }
    }
}

/// What was relayed is what the consumer reads: after the messages arrived
/// at a watching handler whose queue was open and empty, reading the queue in
/// batches yields the arrived messages of all senders but the automated
/// identity, in the order of their arrival.
pub proof fn lemma_relay_then_drain(
    handler: HandlerView,
    queue: WatcherView,
    messages: Seq<MessageView>,
    max_items: nat,
)
    requires
        handler.watching(),
        !queue.closed,
        queue.pending.len() == 0,
        max_items > 0,
    ensures
        handler.deliver(queue, messages).1.drain(max_items) == messages.filter(
            |m: MessageView| m.sender != handler.identity,
        ),
{
    lemma_relay_keeps_order(handler, queue, messages);
    lemma_drain_yields_pending(handler.deliver(queue, messages).1, max_items);
    assert(queue.pending + messages.filter(|m: MessageView| m.sender != handler.identity)
        =~= messages.filter(|m: MessageView| m.sender != handler.identity));
}

/// A closed queue takes nothing and says so: a message that is put into it
/// leaves it as it was, and the handler that tried to relay the message asks
/// for the end of the session. What waited when the queue was closed can
/// still be read.
pub proof fn lemma_closed_queue_refuses(
    handler: HandlerView,
    queue: WatcherView,
    message: MessageView,
)
    ensures
        queue.close().closed,
        queue.close().pending == queue.pending,
        queue.close().enqueue(message) == queue.close(),
        queue.close().close() == queue.close(),
        handler.relay(queue.close(), message) == queue.close(),
        handler.accepts(message) ==> handler.message_action(queue.close(), message)
            == WatcherAction::Shutdown(SessionOutcome::Error(SessionError::QueueClosed))
            && !handler.after_message(queue.close(), message).watching(),
{
}

/// A handler that has stopped watching ignores what comes: nothing is
/// relayed, nothing is asked for, and the handler stays as it is. So the end
/// of the session is asked for once.
pub proof fn lemma_stopped_handler_ignores(
    handler: HandlerView,
    queue: WatcherView,
    message: MessageView,
    thread: u64,
    status: ThreadStatus,
)
    requires
        !handler.watching(),
    ensures
        handler.message_action(queue, message) == WatcherAction::Ignored,
        handler.relay(queue, message) == queue,
        handler.after_message(queue, message) == handler,
        handler.report_action(queue.thread.id, thread, status) == WatcherAction::Ignored,
        handler.after_report(queue.thread.id, thread, status) == handler,
{
}

} // verus!
