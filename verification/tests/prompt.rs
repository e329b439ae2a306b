use thread_supervisor::prompt::{
    batch_prompt, join_lines, preamble, previous_prompt, split_history,
};
use thread_supervisor::thread_message::ThreadMessage;

fn lines(texts: &[&str]) -> Vec<String> {
    texts.iter().map(|t| t.to_string()).collect()
}

fn wrote(sender: u64, text: &str) -> ThreadMessage {
    ThreadMessage::new(sender, text.to_string(), 0)
}

#[test]
fn lines_are_joined_with_line_breaks() {
    assert_eq!(join_lines(&lines(&[])), "");
    assert_eq!(join_lines(&lines(&["one"])), "one");
    assert_eq!(join_lines(&lines(&["one", "two"])), "one\ntwo");
    assert_eq!(join_lines(&lines(&["one", "", "three"])), "one\n\nthree");
    assert_eq!(join_lines(&lines(&["", ""])), "\n");
}

#[test]
fn batch_is_announced_in_four_sections() {
    let sections = batch_prompt(&lines(&["{\"content\":\"a\"}", "{\"content\":\"b\"}"]));
    assert_eq!(
        sections,
        vec![
            "[START OF AUTOMATED MESSAGE]".to_string(),
            "New message data received, respond using send_discord_message:".to_string(),
            "{\"content\":\"a\"}\n{\"content\":\"b\"}".to_string(),
            "[END OF AUTOMATED MESSAGE]".to_string(),
        ]
    );
}

#[test]
fn empty_batch_is_announced_with_an_empty_body() {
    let sections = batch_prompt(&lines(&[]));
    assert_eq!(sections.len(), 4);
    assert_eq!(sections[2], "");
}

#[test]
fn earlier_messages_get_a_heading_and_a_body() {
    assert_eq!(
        previous_prompt(&lines(&["a", "b"])),
        vec!["\n\n# Previous messages\n".to_string(), "a\nb".to_string()]
    );
    assert_eq!(
        previous_prompt(&lines(&[])),
        vec!["\n\n# Previous messages\n".to_string(), String::new()]
    );
}

#[test]
fn preamble_names_the_owner_and_the_title() {
    let owner_id: u64 = 301_234_567_890_123_456;
    let title = "My printer is on fire";
    let tool = "send_discord_message";
    let expected = format!(
        r#"
You a Coral agent tasked with assisting {owner_id} in a support thread.

# Workflow for every new message:
1. Create a Coral thread for this support thread if one doesn't already exist
2. Determine which agents can help with the {owner_id}'s request
3. Alert {owner_id} using {tool} that you are going ask other agents and that it make take some time
4. Communicate with the agents determined in step 2.
5. Summarise information from other agents and provide it to {owner_id} using {tool}

# Support tips
1. If a message looks incomplete, wait for the user to follow-up
2. Prioritise responding to {owner_id}, other users may send messages in the same support thread

# Discord tips
1. Some or all of the the user's query may exist as the title of the thread
2. Markdown and emojis are supported, notifying users can be done with the <@userid> syntax, e.g <@{owner_id}>
3. The platform and communication on it is generally informal

# Discord thread information
Title: {}
Owner: {owner_id}
"#,
        title
    );
    assert_eq!(preamble(owner_id, title), expected);
}

#[test]
fn preamble_at_the_edges() {
    let smallest = preamble(0, "");
    assert!(smallest.starts_with("\nYou a Coral agent tasked with assisting 0 in a support thread."));
    assert!(smallest.ends_with("# Discord thread information\nTitle: \nOwner: 0\n"));
    let largest = preamble(u64::MAX, "a {} b");
    assert!(largest.contains("e.g <@18446744073709551615>\n"));
    assert!(largest.ends_with("Title: a {} b\nOwner: 18446744073709551615\n"));
}

#[test]
fn thread_without_messages_has_no_opening_message() {
    assert!(split_history(Vec::new()).is_none());
}

#[test]
fn only_message_of_a_thread_opens_it() {
    match split_history(vec![wrote(4, "my printer is on fire")]) {
        Some((opening, earlier)) => {
            assert_eq!(opening.content(), "my printer is on fire");
            assert_eq!(opening.sender(), 4);
            assert!(earlier.is_empty());
        }
        None => panic!("the thread has a message"),
    }
}

#[test]
fn history_is_split_into_the_opening_message_and_the_rest_oldest_first() {
    let newest_first = vec![wrote(4, "fourth"), wrote(9, "third"), wrote(4, "second"), wrote(4, "first")];
    match split_history(newest_first) {
        Some((opening, earlier)) => {
            assert_eq!(opening.content(), "first");
            let rest: Vec<&str> = earlier.iter().map(|m| m.content()).collect();
            assert_eq!(rest, vec!["second", "third", "fourth"]);
            assert_eq!(earlier[1].sender(), 9);
        }
        None => panic!("the thread has messages"),
    }
}
