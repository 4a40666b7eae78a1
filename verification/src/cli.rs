//! The text of the command line: how messages are shown, and how a line asks for one to be sent.

use vstd::prelude::*;
use vstd::string::*;

use crate::command::{Command, Recipient};
use crate::event::{Conversation, ConversationView, TextMessage, TextMessageView};
use crate::text::{self, decimal_text};

verus! {

/// `Name (IDENTITY)` when a name is known, else just the bare identity.
pub open spec fn labelled(identity: Seq<char>, name: Option<Seq<char>>) -> Seq<char> {
    match name {
        Some(name) => name + " ("@ + identity + ")"@,
        None => identity,
    }
}

/// `Name (IDENTITY)` when a name is known, else just the bare identity.
pub fn label(identity: &str, name: Option<&str>) -> (text: String)
    ensures
        text@ == labelled(
            identity@,
            match name {
                Some(name) => Some(name@),
                None => None,
            },
        ),
{
    match name {
        Some(name) => {
            let mut text: String = name.to_owned();
            text.append(" (");
            text.append(identity);
            text.append(")");
            text
        },
        None => identity.to_owned(),
    }
}

/// A text that may be absent, as a slice.
fn as_deref(text: &Option<String>) -> (slice: Option<&str>)
    ensures
        match (*text, slice) {
            (Some(text), Some(slice)) => slice@ == text@,
            (None, None) => true,
            _ => false,
        },
{
    match text {
        Some(text) => Some(text.as_str()),
        None => None,
    }
}

/// A group, as it is shown.
pub open spec fn group_text(creator_identity: Seq<char>, group_id: u64) -> Seq<char> {
    "group "@ + creator_identity + "/"@ + text::decimal(group_id as nat)
}

fn group_label(creator_identity: &str, group_id: u64) -> (text: String)
    ensures
        text@ == group_text(creator_identity@, group_id),
{
    let mut text: String = "group ".to_owned();
    text.append(creator_identity);
    text.append("/");
    text.append(decimal_text(group_id).as_str());
    text
}

/// The conversation that the user wrote in, as it is shown.
pub open spec fn conversation_text(conversation: ConversationView) -> Seq<char> {
    match conversation {
        ConversationView::Contact { identity, name } => labelled(identity, name) + " ["@ + identity
            + "]"@,
        ConversationView::Group { creator_identity, group_id } => group_text(
            creator_identity,
            group_id,
        ),
        ConversationView::DistributionList { id } => "distribution list "@ + text::decimal(
            id as nat,
        ),
        ConversationView::Unknown => "<unknown conversation>"@,
    }
}

fn conversation_label(conversation: &Conversation) -> (text: String)
    ensures
        text@ == conversation_text(conversation@),
{
    match conversation {
        Conversation::Contact { identity, name } => {
            let mut text = label(identity.as_str(), as_deref(name));
            text.append(" [");
            text.append(identity.as_str());
            text.append("]");
            text
        },
        Conversation::Group { creator_identity, group_id } => group_label(
            creator_identity.as_str(),
            *group_id,
        ),
        Conversation::DistributionList { id } => {
            let mut text: String = "distribution list ".to_owned();
            text.append(decimal_text(*id).as_str());
            text
        },
        Conversation::Unknown => "<unknown conversation>".to_owned(),
    }
}

/// The sender of a message as it is shown if it is missing.
pub open spec fn sender_text(message: TextMessageView) -> Seq<char> {
    match message.sender_identity {
        Some(identity) => identity,
        None => "<unknown>"@,
    }
}

/// The line that shows a message.
pub open spec fn message_line(message: TextMessageView) -> Seq<char> {
    let stamp = "["@ + text::decimal(message.timestamp_ms as nat) + "] "@;
    if message.outgoing {
        stamp + "me (to "@ + conversation_text(message.conversation) + "): "@ + message.text
    } else {
        let sender = sender_text(message);
        let author = stamp + labelled(sender, message.sender_name) + " ["@ + sender + "]"@;
        match message.conversation {
            ConversationView::Group { creator_identity, group_id } => author + " ("@ + group_text(
                creator_identity,
                group_id,
            ) + "): "@ + message.text,
            _ => author + ": "@ + message.text,
        }
    }
}

/// The line that shows a message.
pub fn format_text_message(message: &TextMessage) -> (line: String)
    ensures
        line@ == message_line(message@),
{
    let mut line: String = "[".to_owned();
    line.append(decimal_text(message.timestamp_ms).as_str());
    line.append("] ");
    if message.outgoing {
        line.append("me (to ");
        line.append(conversation_label(&message.conversation).as_str());
        line.append("): ");
        line.append(message.text.as_str());
        return line;
    }
    let sender: &str = match &message.sender_identity {
        Some(identity) => identity.as_str(),
        None => "<unknown>",
    };
    line.append(label(sender, as_deref(&message.sender_name)).as_str());
    line.append(" [");
    line.append(sender);
    line.append("]");
    match &message.conversation {
        Conversation::Group { creator_identity, group_id } => {
            line.append(" (");
            line.append(group_label(creator_identity.as_str(), *group_id).as_str());
            line.append("): ");
        },
        _ => {
            line.append(": ");
        },
    }
    line.append(message.text.as_str());
    line
}

/// The position of the first space of a line, its length if there is none.
pub open spec fn first_space(line: Seq<char>) -> int
    decreases line.len(),
{
    if line.len() == 0 {
        0
    } else if line[0] == ' ' {
        0
    } else {
        1 + first_space(line.skip(1))
    }
}

/// The identity and the text of a line `IDENTITY message text`; nothing if one of them is missing.
pub open spec fn send_line(line: Seq<char>) -> Option<(Seq<char>, Seq<char>)> {
    let end = first_space(line);
    if 0 < end && end + 1 < line.len() {
        Some((line.take(end), line.skip(end + 1)))
    } else {
        None
    }
}

/// What a line `IDENTITY message text` asks for: to send the text, which is everything after the
/// first space, to the identity before it. Nothing if one of them is missing.
pub fn parse_send_line(line: &str) -> (command: Option<Command>)
    ensures
        match send_line(line@) {
            Some((identity, text)) => {
                &&& command matches Some(Command::SendText { to, text: sent })
                &&& to matches Recipient::Contact { identity: receiver }
                &&& receiver@ == identity
                &&& sent@ == text
            },
            None => command is None,
        },
{
    let length: usize = line.unicode_len();
    let mut end: usize = 0;
    assert(line@.skip(0) =~= line@);
    while end < length && line.get_char(end) != ' '
        invariant
            length == line@.len(),
            end <= length,
            first_space(line@) == end + first_space(line@.skip(end as int)),
        decreases length - end,
    {
        assert(line@.skip(end as int)[0] == line@[end as int]);
        assert(line@.skip(end as int).skip(1) =~= line@.skip(end + 1));
        end += 1;
    }
    proof {
        if end < length {
            assert(line@.skip(end as int)[0] == line@[end as int]);
        }
        assert(first_space(line@) == end);
    }
    if end == 0 || end >= length || end + 1 >= length {
        return None;
    }
    let identity: String = line.substring_char(0, end).to_owned();
    let text: String = line.substring_char(end + 1, length).to_owned();
    proof {
        assert(identity@ =~= line@.take(end as int));
        assert(text@ =~= line@.skip(end + 1));
    }
    Some(Command::SendText { to: Recipient::Contact { identity }, text })
}

/// A line made of an identity without spaces, a space and a text asks for just that text to be
/// sent to just that identity.
pub proof fn send_lines_round_trip(identity: Seq<char>, text: Seq<char>)
    requires
        identity.len() > 0,
        text.len() > 0,
        forall|i: int| 0 <= i < identity.len() ==> identity[i] != ' ',
    ensures
        send_line(identity + seq![' '] + text) == Some((identity, text)),
{
    let line = identity + seq![' '] + text;
    lemma_first_space(identity, text);
    assert(line.take(identity.len() as int) =~= identity);
    assert(line.skip(identity.len() as int + 1) =~= text);
}

proof fn lemma_first_space(identity: Seq<char>, text: Seq<char>)
    requires
        forall|i: int| 0 <= i < identity.len() ==> identity[i] != ' ',
    ensures
        first_space(identity + seq![' '] + text) == identity.len(),
    decreases identity.len(),
{
    let line = identity + seq![' '] + text;
    if identity.len() > 0 {
        let rest = identity.skip(1);
        assert forall|i: int| 0 <= i < rest.len() implies rest[i] != ' ' by {
            assert(rest[i] == identity[i + 1]);
        }
        lemma_first_space(rest, text);
        assert(line.skip(1) =~= rest + seq![' '] + text);
    }
}

/// A line that asks for something to be sent is made of the identity, which has no space, a space
/// and the text, and neither of the two is empty.
pub proof fn send_lines_are_taken_apart(line: Seq<char>)
    ensures
        send_line(line) matches Some((identity, text)) ==> {
            &&& line == identity + seq![' '] + text
            &&& identity.len() > 0
            &&& text.len() > 0
            &&& forall|i: int| 0 <= i < identity.len() ==> identity[i] != ' '
        },
{
    lemma_space_found(line);
    if let Some((identity, text)) = send_line(line) {
        let end = first_space(line);
        assert(line =~= identity + seq![' '] + text);
    }
}

proof fn lemma_space_found(line: Seq<char>)
    ensures
        0 <= first_space(line) <= line.len(),
        first_space(line) < line.len() ==> line[first_space(line)] == ' ',
        forall|i: int| 0 <= i < first_space(line) ==> line[i] != ' ',
    decreases line.len(),
{
    if line.len() > 0 && line[0] != ' ' {
        let rest = line.skip(1);
        lemma_space_found(rest);
        assert forall|i: int| 0 <= i < first_space(line) implies line[i] != ' ' by {
            if i > 0 {
                assert(rest[i - 1] == line[i]);
            }
        }
    }
}

/// A contact is shown as the name, if there is one, with the identity in brackets behind it, and
/// else as the identity; a conversation of the user's own names the identity once more, a group
/// its creator and its number, and a distribution list its number.
pub proof fn conversations_are_shown(
    identity: Seq<char>,
    name: Seq<char>,
    number: u64,
)
    ensures
        labelled(identity, Some(name)) == name + " ("@ + identity + ")"@,
        labelled(identity, None) == identity,
        conversation_text(ConversationView::Contact { identity, name: Some(name) }) == name + " ("@
            + identity + ")"@ + " ["@ + identity + "]"@,
        conversation_text(ConversationView::Contact { identity, name: None }) == identity + " ["@
            + identity + "]"@,
        conversation_text(
            ConversationView::Group { creator_identity: identity, group_id: number },
        ) == "group "@ + identity + "/"@ + text::decimal(number as nat),
        conversation_text(ConversationView::DistributionList { id: number })
            == "distribution list "@ + text::decimal(number as nat),
        conversation_text(ConversationView::Unknown) == "<unknown conversation>"@,
{
}

/// A message is shown on a line with its time, who wrote it, and its text: one of the user's own
/// with its conversation, one of someone else with the author, and with the group if it is in one.
pub proof fn messages_are_shown(message: TextMessageView)
    ensures
        ({
            let stamp = "["@ + text::decimal(message.timestamp_ms as nat) + "] "@;
            let sender = match message.sender_identity {
                Some(identity) => identity,
                None => "<unknown>"@,
            };
            let author = match message.sender_name {
                Some(name) => name + " ("@ + sender + ")"@,
                None => sender,
            };
            message_line(message) == (match (message.outgoing, message.conversation) {
                (true, conversation) => stamp + "me (to "@ + conversation_text(conversation)
                    + "): "@ + message.text,
                (false, ConversationView::Group { creator_identity, group_id }) => stamp + author
                    + " ["@ + sender + "]"@ + " ("@ + ("group "@ + creator_identity + "/"@
                    + text::decimal(group_id as nat)) + "): "@ + message.text,
                (false, _) => stamp + author + " ["@ + sender + "]"@ + ": "@ + message.text,
            })
        }),
{
}

} // verus!
