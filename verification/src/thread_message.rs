//! The message that is relayed from the thread to the consumer.

use vstd::prelude::*;

verus! {

/// What a [`ThreadMessage`] holds, as a mathematical value.
pub struct MessageView {
    pub sender: u64,
    pub content: Seq<char>,
    pub received_at: i64,
}

/// One message observed on the watched thread.
///
/// A message is made once, when the gateway reports it, and is never changed
/// afterwards: the fields can be read but not written.
pub struct ThreadMessage {
    sender: u64,
    content: String,
    received_at: i64,
}

impl View for ThreadMessage {
    type V = MessageView;

    closed spec fn view(&self) -> MessageView {
        MessageView { sender: self.sender, content: self.content@, received_at: self.received_at }
    }
}

impl ThreadMessage {
    /// A message written by `sender` with the text `content`, received at
    /// `received_at` (seconds since the Unix epoch).
    pub fn new(sender: u64, content: String, received_at: i64) -> (message: Self)
        ensures
            message@ == (MessageView { sender, content: content@, received_at }),
    {
        ThreadMessage { sender, content, received_at }
    }

    /// The identifier of the author.
    pub fn sender(&self) -> (sender: u64)
        ensures
            sender == self@.sender,
    {
        self.sender
    }

    /// The text of the message.
    pub fn content(&self) -> (content: &str)
        ensures
            content@ == self@.content,
    {
        self.content.as_str()
    }

    /// When the message was received, in seconds since the Unix epoch.
    pub fn received_at(&self) -> (received_at: i64)
        ensures
            received_at == self@.received_at,
    {
        self.received_at
    }

    /// A second message with the same author, text and time.
    pub fn duplicate(&self) -> (copy: Self)
        ensures
            copy@ == self@,
    {
        ThreadMessage {
            sender: self.sender,
            content: self.content.clone(),
            received_at: self.received_at,
        }
    }
}

} // verus!
