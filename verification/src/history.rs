//! The message history of the command line, and the recall of earlier
//! commands from it.
//!
//! The history keeps every line the user submitted and every answer, oldest
//! first. A cursor counts how far the user has gone back with the up key:
//! 0 is the empty input line, 1 the latest valid command, 2 the one before.

use crate::commands::MessageType;
use crate::text::text_of;
use crate::text::texts;
use vstd::prelude::*;

verus! {

/// A key that moves through the earlier commands.
#[derive(Debug, PartialEq, Eq, Structural, Clone, Copy, Hash)]
pub enum HistoryKey {
    /// One command back.
    Up,
    /// One command forward.
    Down,
}

/// The texts of the valid commands among `messages`, oldest first.
pub open spec fn valid_commands(messages: Seq<(Seq<char>, MessageType)>) -> Seq<Seq<char>>
    decreases messages.len(),
{
    if messages.len() == 0 {
        Seq::empty()
    } else if messages.last().1 == MessageType::ValidCommand {
        valid_commands(messages.drop_last()).push(messages.last().0)
    } else {
        valid_commands(messages.drop_last())
    }
}

/// The cursor after `key`: one up or one down, held at what a `usize` can
/// count and at zero.
pub open spec fn moved(cursor: nat, key: HistoryKey) -> nat {
    match key {
        HistoryKey::Up => if cursor < usize::MAX {
            cursor + 1
        } else {
            cursor
        },
        HistoryKey::Down => if cursor > 0 {
            (cursor - 1) as nat
        } else {
            0
        },
    }
}

/// What the input line is to show with the cursor at `cursor`: nothing at 0,
/// the valid command that many places from the end, and no change where the
/// history does not go back that far.
pub open spec fn recalled(messages: Seq<(Seq<char>, MessageType)>, cursor: nat) -> Option<
    Seq<char>,
> {
    let valid = valid_commands(messages);
    if cursor == 0 {
        Some(Seq::empty())
    } else if cursor <= valid.len() {
        Some(valid[valid.len() - cursor])
    } else {
        None
    }
}

/// The characters and the kind of each message.
pub open spec fn message_texts(messages: Seq<(String, MessageType)>) -> Seq<
    (Seq<char>, MessageType),
> {
    messages.map_values(|message: (String, MessageType)| (message.0@, message.1))
}

/// A [`MessageHistory`] over characters.
pub struct HistoryView {
    pub messages: Seq<(Seq<char>, MessageType)>,
    pub cursor: nat,
}

/// The message history of one command line.
pub struct MessageHistory {
    messages: Vec<(String, MessageType)>,
    prev_message: usize,
}

impl View for MessageHistory {
    type V = HistoryView;

    closed spec fn view(&self) -> HistoryView {
        HistoryView { messages: message_texts(self.messages@), cursor: self.prev_message as nat }
    }
}

impl MessageHistory {
    /// An empty history.
    pub fn new() -> (history: MessageHistory)
        ensures
            history@.messages == Seq::<(Seq<char>, MessageType)>::empty(),
            history@.cursor == 0,
    {
        MessageHistory { messages: Vec::new(), prev_message: 0 }
    }

    /// The messages, oldest first.
    pub fn messages(&self) -> (messages: &Vec<(String, MessageType)>)
        ensures
            message_texts(messages@) == self@.messages,
    {
        &self.messages
    }

    /// Keeps a submitted `line` with its `validity`, and after it the `reply`
    /// if there is one. The cursor goes back to the empty input line.
    pub fn record(&mut self, line: String, validity: MessageType, reply: Option<String>)
        ensures
            final(self)@.cursor == 0,
            reply.is_none() ==> final(self)@.messages == old(self)@.messages.push(
                (line@, validity),
            ),
            reply.is_some() ==> final(self)@.messages == old(self)@.messages.push(
                (line@, validity),
            ).push((reply.unwrap()@, MessageType::Information)),
    {
        self.messages.push((line, validity));
        match reply {
            Some(text) => {
                self.messages.push((text, MessageType::Information));
            },
            None => {},
        }
        self.prev_message = 0;
    }

    /// The texts of the valid commands, oldest first.
    fn valid_texts(&self) -> (valid: Vec<String>)
        ensures
            texts(valid@) == valid_commands(self@.messages),
    {
        let mut valid: Vec<String> = Vec::new();
        let mut i: usize = 0;
        while i < self.messages.len()
            invariant
                i <= self.messages.len(),
                texts(valid@) == valid_commands(
                    message_texts(self.messages@).take(i as int),
                ),
            decreases self.messages.len() - i,
        {
            let ghost all = message_texts(self.messages@);
            assert(all.take(i + 1).drop_last() =~= all.take(i as int));
            if self.messages[i].1 == MessageType::ValidCommand {
                let text = self.messages[i].0.clone();
                valid.push(text);
            }
            i = i + 1;
        }
        assert(message_texts(self.messages@).take(self.messages.len() as int) =~= message_texts(
            self.messages@,
        ));
        valid
    }

    /// Moves the cursor by `key` and says what the input line is to show
    /// then: `None` leaves it as it is.
    pub fn choose_prev_command(&mut self, key: HistoryKey) -> (input: Option<String>)
        ensures
            final(self)@.messages == old(self)@.messages,
            final(self)@.cursor == moved(old(self)@.cursor, key),
            text_of(input) == recalled(
                old(self)@.messages,
                moved(old(self)@.cursor, key),
            ),
    {
        let valid = self.valid_texts();
        match key {
            HistoryKey::Up => {
                if self.prev_message < usize::MAX {
                    self.prev_message = self.prev_message + 1;
                }
            },
            HistoryKey::Down => {
                if self.prev_message > 0 {
                    self.prev_message = self.prev_message - 1;
                }
            },
        }
        let cursor = self.prev_message;
        if cursor == 0 {
            Some(String::new())
        } else if cursor <= valid.len() {
            Some(valid[valid.len() - cursor].clone())
        } else {
            None
        }
    }
}

} // verus!
