//! What the consumer is given to read: the messages that were in the thread
//! when the session began, and each batch that is relayed after that.
//!
//! A message reaches this module as one line of text, in whatever form the
//! program writes messages down.

use vstd::prelude::*;
use vstd::string::StringExecFns;
use crate::notice::{decimal_nat, unsigned_text};
use crate::thread_message::ThreadMessage;
use crate::thread_watcher::message_views;
use crate::tools::thread_respond_tool_name;

verus! {

/// The lines `lines`, each but the last followed by a line break.
pub open spec fn joined(lines: Seq<Seq<char>>) -> Seq<char>
    decreases lines.len(),
{
    if lines.len() == 0 {
        Seq::empty()
    } else if lines.len() == 1 {
        lines[0]
    } else {
        joined(lines.drop_last()) + "\n"@ + lines.last()
    }
}

/// The texts of a sequence of strings, in the same order.
pub open spec fn texts(lines: Seq<String>) -> Seq<Seq<char>> {
    lines.map_values(|line: String| line@)
}

/// The sections that announce a batch of relayed messages to the consumer:
/// a mark, the instruction, the messages line by line, and a closing mark.
pub open spec fn batch_sections(lines: Seq<Seq<char>>) -> Seq<Seq<char>> {
    seq![
        "[START OF AUTOMATED MESSAGE]"@,
        "New message data received, respond using "@ + thread_respond_tool_name() + ":"@,
        joined(lines),
        "[END OF AUTOMATED MESSAGE]"@,
    ]
}

/// The two sections that tell the consumer of the messages that were in
/// the thread before the one it is asked to answer: a heading, and the
/// messages line by line.
pub open spec fn previous_sections(lines: Seq<Seq<char>>) -> Seq<Seq<char>> {
    seq!["\n\n# Previous messages\n"@, joined(lines)]
}

/// Joins lines with line breaks.
pub fn join_lines(lines: &Vec<String>) -> (text: String)
    ensures
        text@ == joined(texts(lines@)),
{
    let mut text = String::new();
    let mut index: usize = 0;
    while index < lines.len()
        invariant
            index <= lines.len(),
            text@ == joined(texts(lines@).take(index as int)),
        decreases lines.len() - index,
    {
        let ghost before = texts(lines@).take(index as int);
        let ghost after = texts(lines@).take(index + 1);
        assert(after.drop_last() =~= before);
        assert(after.last() == lines@[index as int]@);
        if index > 0 {
            text.append("\n");
        } else {
            assert(text@ + lines@[0]@ =~= lines@[0]@);
        }
        text.append(lines[index].as_str());
        index = index + 1;
    }
    assert(texts(lines@).take(lines.len() as int) =~= texts(lines@));
    text
}

/// The sections that announce a batch of relayed messages, given one line
/// for each message.
pub fn batch_prompt(lines: &Vec<String>) -> (sections: Vec<String>)
    ensures
        texts(sections@) == batch_sections(texts(lines@)),
{
    let mut instruction = String::from_str("New message data received, respond using ");
    instruction.append("send_discord_message");
    instruction.append(":");
    let mut sections: Vec<String> = Vec::new();
    sections.push(String::from_str("[START OF AUTOMATED MESSAGE]"));
    sections.push(instruction);
    sections.push(join_lines(lines));
    sections.push(String::from_str("[END OF AUTOMATED MESSAGE]"));
    assert(texts(sections@) =~= batch_sections(texts(lines@)));
    sections
}

/// The sections on the earlier messages of the thread, given one line for
/// each of them.
pub fn previous_prompt(lines: &Vec<String>) -> (sections: Vec<String>)
    ensures
        texts(sections@) == previous_sections(texts(lines@)),
{
    let mut sections: Vec<String> = Vec::new();
    sections.push(String::from_str("\n\n# Previous messages\n"));
    sections.push(join_lines(lines));
    assert(texts(sections@) =~= previous_sections(texts(lines@)));
    sections
}

/// What the consumer is told before anything else: whom it serves, how it
/// is to go about each new message, and the title and the owner of the
/// thread. The owner is named by the decimal digits of its identifier.
pub open spec fn preamble_text(owner: u64, title: Seq<char>) -> Seq<char> {
    "\nYou a Coral agent tasked with assisting "@
        + decimal_nat(owner as nat)
        + " in a support thread.\n\n# Workflow for every new message:\n1. Create a Coral thread for this support thread if one doesn't already exist\n2. Determine which agents can help with the "@
        + decimal_nat(owner as nat)
        + "'s request\n3. Alert "@
        + decimal_nat(owner as nat)
        + " using "@
        + thread_respond_tool_name()
        + " that you are going ask other agents and that it make take some time\n4. Communicate with the agents determined in step 2.\n5. Summarise information from other agents and provide it to "@
        + decimal_nat(owner as nat)
        + " using "@
        + thread_respond_tool_name()
        + "\n\n# Support tips\n1. If a message looks incomplete, wait for the user to follow-up\n2. Prioritise responding to "@
        + decimal_nat(owner as nat)
        + ", other users may send messages in the same support thread\n\n# Discord tips\n1. Some or all of the the user's query may exist as the title of the thread\n2. Markdown and emojis are supported, notifying users can be done with the <@userid> syntax, e.g <@"@
        + decimal_nat(owner as nat)
        + ">\n3. The platform and communication on it is generally informal\n\n# Discord thread information\nTitle: "@
        + title
        + "\nOwner: "@
        + decimal_nat(owner as nat)
        + "\n"@
}

/// What the consumer is told before anything else, for the thread with the
/// title `title` that `owner` owns.
pub fn preamble(owner: u64, title: &str) -> (text: String)
    ensures
        text@ == preamble_text(owner, title@),
{
    let owner_text = unsigned_text(owner);
    let mut text = String::from_str("\nYou a Coral agent tasked with assisting ");
    text.append(owner_text.as_str());
    text.append(" in a support thread.\n\n# Workflow for every new message:\n1. Create a Coral thread for this support thread if one doesn't already exist\n2. Determine which agents can help with the ");
    text.append(owner_text.as_str());
    text.append("'s request\n3. Alert ");
    text.append(owner_text.as_str());
    text.append(" using ");
    text.append("send_discord_message");
    text.append(" that you are going ask other agents and that it make take some time\n4. Communicate with the agents determined in step 2.\n5. Summarise information from other agents and provide it to ");
    text.append(owner_text.as_str());
    text.append(" using ");
    text.append("send_discord_message");
    text.append("\n\n# Support tips\n1. If a message looks incomplete, wait for the user to follow-up\n2. Prioritise responding to ");
    text.append(owner_text.as_str());
    text.append(", other users may send messages in the same support thread\n\n# Discord tips\n1. Some or all of the the user's query may exist as the title of the thread\n2. Markdown and emojis are supported, notifying users can be done with the <@userid> syntax, e.g <@");
    text.append(owner_text.as_str());
    text.append(">\n3. The platform and communication on it is generally informal\n\n# Discord thread information\nTitle: ");
    text.append(title);
    text.append("\nOwner: ");
    text.append(owner_text.as_str());
    text.append("\n");
    text
}

/// Splits the messages that a thread holds when the session begins, given
/// newest first as the gateway lists them. The oldest one opened the thread:
/// it is the first that the consumer has to answer. The others come back
/// oldest first. A thread without messages has no opening message.
pub fn split_history(history: Vec<ThreadMessage>) -> (res: Option<(ThreadMessage, Vec<ThreadMessage>)>)
    ensures
        res is None <==> history@.len() == 0,
        res matches Some((opening, earlier)) ==> opening@ == history@.last()@ && message_views(
            earlier@,
        ) == message_views(history@.drop_last()).reverse(),
{
    let mut rest = history;
    let opening = match rest.pop() {
        Some(message) => message,
        None => {
            return None;
        },
    };
    let ghost newest_first = message_views(rest@);
    assert(newest_first =~= message_views(history@.drop_last()));
    let mut earlier: Vec<ThreadMessage> = Vec::new();
    while rest.len() > 0
        invariant
            rest@.len() <= newest_first.len(),
            message_views(rest@) == newest_first.take(rest@.len() as int),
            message_views(earlier@) == newest_first.skip(rest@.len() as int).reverse(),
        decreases rest.len(),
    {
        let ghost shorter = (rest@.len() - 1) as int;
        let ghost done = message_views(earlier@);
        let ghost longer = rest@;
        match rest.pop() {
            Some(message) => {
                earlier.push(message);
                proof {
                    assert(message_views(longer)[shorter] == newest_first[shorter]);
                    assert(message_views(rest@) =~= newest_first.take(shorter));
                    assert(message_views(earlier@) =~= done.push(message@));
                    assert(newest_first.skip(shorter).reverse() =~= newest_first.skip(
                        shorter + 1,
                    ).reverse().push(newest_first[shorter]));
                }
            },
            None => {},
        }
    }
    assert(newest_first.skip(0) =~= newest_first);
    Some((opening, earlier))
}

} // verus!
