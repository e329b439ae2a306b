//! The tool through which the consumer answers into the thread.

use vstd::prelude::*;
use vstd::string::StringExecFns;

verus! {

/// The name under which the consumer knows the tool.
pub open spec fn thread_respond_tool_name() -> Seq<char> {
    "send_discord_message"@
}

/// What the consumer is told that the tool does.
pub open spec fn thread_respond_tool_description() -> Seq<char> {
    "Sends a message to the Discord thread."@
}

/// What the consumer hands to the tool: the text to send.
pub struct Args {
    pub content: String,
}

impl View for Args {
    type V = Seq<char>;

    open spec fn view(&self) -> Seq<char> {
        self.content@
    }
}

/// What the tool hands back: the identifier that the platform gave to the
/// message and the time at which it took it, in seconds since the Unix epoch.
#[derive(Clone, Copy, Debug, PartialEq, Eq, Structural)]
pub struct ThreadRespondToolOutput {
    pub id: u64,
    pub timestamp: i64,
}

impl Args {
    /// The arguments for sending `content`.
    pub fn new(content: String) -> (args: Self)
        ensures
            args@ == content@,
    {
        Args { content }
    }

    /// The text to send.
    pub fn content(&self) -> (content: &str)
        ensures
            content@ == self@,
    {
        self.content.as_str()
    }
}

/// The name under which the consumer knows the tool.
pub fn tool_name() -> (name: String)
    ensures
        name@ == thread_respond_tool_name(),
{
    String::from_str("send_discord_message")
}

/// What the consumer is told that the tool does.
pub fn tool_description() -> (description: String)
    ensures
        description@ == thread_respond_tool_description(),
{
    String::from_str("Sends a message to the Discord thread.")
}

} // verus!
