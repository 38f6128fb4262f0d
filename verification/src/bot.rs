use vstd::prelude::*;

use crate::error::{BotError, ReportError};
use crate::jira::{spec_report_of_outcome, spec_result_text, HttpOutcome, Jira};
use crate::text::{contains, same_text, spec_contains, spec_words, split_words, texts};

verus! {

/// What the bot does about a message.
#[derive(Debug, PartialEq, Eq)]
pub enum Action {
    /// Nothing: the message is not for the bot.
    Ignore,
    /// Send `text` to `channel`.
    Reply { channel: String, text: String },
    /// Fetch the report of sprint `sprint_id` on board `rapid_id`, and answer
    /// on `channel` with what `report_reply` makes of the outcome.
    Report { channel: String, rapid_id: String, sprint_id: String },
}

/// An action as plain values.
pub enum ActionView {
    Ignore,
    Reply { channel: Seq<char>, text: Seq<char> },
    Report { channel: Seq<char>, rapid_id: Seq<char>, sprint_id: Seq<char> },
}

impl View for Action {
    type V = ActionView;

    open spec fn view(&self) -> ActionView {
        match self {
            Action::Ignore => ActionView::Ignore,
            Action::Reply { channel, text } => ActionView::Reply { channel: channel@, text: text@ },
            Action::Report { channel, rapid_id, sprint_id } => ActionView::Report {
                channel: channel@,
                rapid_id: rapid_id@,
                sprint_id: sprint_id@,
            },
        }
    }
}

/// What the bot does once a report was fetched.
#[derive(Debug, PartialEq, Eq)]
pub enum Outbound {
    /// Send `text` to `channel`.
    Send { channel: String, text: String },
    /// Send nothing, and put `message` in the log.
    Log { message: String },
}

/// An outbound action as plain values.
pub enum OutboundView {
    Send { channel: Seq<char>, text: Seq<char> },
    Log { message: Seq<char> },
}

impl View for Outbound {
    type V = OutboundView;

    open spec fn view(&self) -> OutboundView {
        match self {
            Outbound::Send { channel, text } => OutboundView::Send { channel: channel@, text: text@ },
            Outbound::Log { message } => OutboundView::Log { message: message@ },
        }
    }
}

/// What the chat service hands to the bot.
#[derive(Debug)]
pub enum Event {
    /// A standard message, with its text and its channel where it has them.
    Message { text: Option<String>, channel: Option<String> },
    /// Anything else.
    Other,
}

/// Where a session with the chat service stands.
#[derive(Debug, Clone, Copy, PartialEq, Eq, Structural)]
pub enum SessionState {
    Disconnected,
    Connected,
    Closed,
}

/// The words of a message that make up the command: all its words, but for
/// a first word that holds the mention of the bot.
pub open spec fn spec_command_words(msg: Seq<char>, identity: Seq<char>) -> Seq<Seq<char>> {
    let words = spec_words(msg);
    if words.len() > 0 && spec_contains(words[0], identity) {
        words.skip(1)
    } else {
        words
    }
}

/// What to tell a user whose command lacks an argument.
pub open spec fn spec_usage() -> Seq<char> {
    "Usage: report <board id> <sprint id>"@
}

/// What to tell a user whose command is not known.
pub open spec fn spec_unknown_command(command: Seq<char>) -> Seq<char> {
    "I'm not sure what you mean by "@ + command
}

/// A command as the bot reads it off a message.
#[derive(Debug, PartialEq, Eq)]
pub enum Command {
    /// Report on sprint `sprint_id` of board `rapid_id`.
    Report { rapid_id: String, sprint_id: String },
    /// A command that the bot does not know.
    Unknown { name: String },
}

/// A command as plain values.
pub enum CommandView {
    Report { rapid_id: Seq<char>, sprint_id: Seq<char> },
    Unknown { name: Seq<char> },
}

impl View for Command {
    type V = CommandView;

    open spec fn view(&self) -> CommandView {
        match self {
            Command::Report { rapid_id, sprint_id } => CommandView::Report {
                rapid_id: rapid_id@,
                sprint_id: sprint_id@,
            },
            Command::Unknown { name } => CommandView::Unknown { name: name@ },
        }
    }
}

/// The command that the command words of a message give. The first word
/// selects it: `report` takes the two words after it as board and sprint,
/// and any other word is a command that is not known. Where there is no word
/// at all, and where `report` lacks one of its two, there is no command: a
/// `CommandUsageError`.
pub open spec fn spec_command(words: Seq<Seq<char>>) -> Result<CommandView, BotError> {
    if words.len() == 0 {
        Err(BotError::CommandUsageError)
    } else if words[0] == "report"@ {
        if words.len() >= 3 {
            Ok(CommandView::Report { rapid_id: words[1], sprint_id: words[2] })
        } else {
            Err(BotError::CommandUsageError)
        }
    } else {
        Ok(CommandView::Unknown { name: words[0] })
    }
}

/// The words from position `first` on; none where there are not so many.
pub open spec fn spec_words_after(words: Seq<Seq<char>>, first: int) -> Seq<Seq<char>> {
    if 0 <= first <= words.len() {
        words.skip(first)
    } else {
        Seq::empty()
    }
}

/// Reads the command off the words of a message, of which those from
/// position `first` on are the command words.
pub fn read_command(words: &Vec<String>, first: usize) -> (r: Result<Command, BotError>)
    ensures
        match r {
            Ok(command) => spec_command(spec_words_after(texts(words@), first as int)) == Ok::<
                CommandView,
                BotError,
            >(command@),
            Err(e) => spec_command(spec_words_after(texts(words@), first as int)) == Err::<
                CommandView,
                BotError,
            >(e),
        },
{
    proof {
        assert(texts(words@).len() == words@.len());
    }
    if words.len() <= first {
        proof {
            assert(spec_words_after(texts(words@), first as int).len() == 0);
        }
        return Err(BotError::CommandUsageError);
    }
    proof {
        assert(texts(words@).skip(first as int)[0] == words@[first as int]@);
    }
    if same_text(words[first].as_str(), "report") {
        if words.len() - first >= 3 {
            proof {
                assert(texts(words@).skip(first as int)[1] == words@[first + 1]@);
                assert(texts(words@).skip(first as int)[2] == words@[first + 2]@);
            }
            Ok(
                Command::Report {
                    rapid_id: words[first + 1].clone(),
                    sprint_id: words[first + 2].clone(),
                },
            )
        } else {
            Err(BotError::CommandUsageError)
        }
    } else {
        Ok(Command::Unknown { name: words[first].clone() })
    }
}

/// What the bot whose identity is `identity` does about the message `msg`
/// on `channel`. A message that does not hold the identity is not for the
/// bot. Any other gets one response: the report where the command asks for
/// one, the usage where there is no command, and the answer that the command
/// is not known.
pub open spec fn spec_route(msg: Seq<char>, identity: Seq<char>, channel: Seq<char>)
    -> ActionView {
    if !spec_contains(msg, identity) {
        ActionView::Ignore
    } else {
        match spec_command(spec_command_words(msg, identity)) {
            Ok(CommandView::Report { rapid_id, sprint_id }) => ActionView::Report {
                channel,
                rapid_id,
                sprint_id,
            },
            Ok(CommandView::Unknown { name }) => ActionView::Reply {
                channel,
                text: spec_unknown_command(name),
            },
            Err(_) => ActionView::Reply { channel, text: spec_usage() },
        }
    }
}

/// A message without the mention of the bot gets no response.
pub proof fn lemma_no_mention_no_response(msg: Seq<char>, identity: Seq<char>, channel: Seq<char>)
    requires
        !spec_contains(msg, identity),
    ensures
        spec_route(msg, identity, channel) == ActionView::Ignore,
{
}

/// A message with the mention of the bot gets exactly one response: a reply,
/// or a report to fetch and answer with.
pub proof fn lemma_mention_gets_response(msg: Seq<char>, identity: Seq<char>, channel: Seq<char>)
    requires
        spec_contains(msg, identity),
    ensures
        spec_route(msg, identity, channel) != ActionView::Ignore,
{
}

/// Decides what the bot whose identity is `identity` does about the message
/// `msg` on `channel`.
pub fn route(msg: &str, identity: &str, channel: &str) -> (r: Action)
    ensures
        r@ == spec_route(msg@, identity@, channel@),
{
    if !contains(msg, identity) {
        return Action::Ignore;
    }
    let words = split_words(msg);
    let first: usize = if words.len() > 0 && contains(words[0].as_str(), identity) {
        1
    } else {
        0
    };
    proof {
        assert(texts(words@).len() == words@.len());
        if words.len() > 0 {
            assert(texts(words@)[0] == words@[0]@);
        }
        assert(spec_command_words(msg@, identity@) =~= texts(words@).skip(first as int));
    }
    match read_command(&words, first) {
        Ok(Command::Report { rapid_id, sprint_id }) => Action::Report {
            channel: channel.to_owned(),
            rapid_id,
            sprint_id,
        },
        Ok(Command::Unknown { name }) => {
            let mut text = "I'm not sure what you mean by ".to_owned();
            text.append(name.as_str());
            Action::Reply { channel: channel.to_owned(), text }
        },
        Err(_) => Action::Reply {
            channel: channel.to_owned(),
            text: "Usage: report <board id> <sprint id>".to_owned(),
        },
    }
}

/// What the bot does once the report was fetched: the report goes to the
/// channel; a failure goes to the log, and nothing is sent.
pub open spec fn spec_report_reply(channel: Seq<char>, report: Result<Seq<char>, ReportError>)
    -> OutboundView {
    match report {
        Ok(text) => OutboundView::Send { channel, text },
        Err(e) => OutboundView::Log { message: e.spec_description() },
    }
}

/// Decides what the bot does with a report or the failure to build one.
pub fn report_reply(channel: &str, report: Result<String, ReportError>) -> (r: Outbound)
    ensures
        r@ == spec_report_reply(channel@, spec_result_text(report)),
{
    match report {
        Ok(text) => Outbound::Send { channel: channel.to_owned(), text },
        Err(e) => Outbound::Log { message: e.description().to_owned() },
    }
}

/// The bot on a session with the chat service.
#[derive(Debug)]
pub struct SlackHandler {
    my_id: String,
    jira: Jira,
    state: SessionState,
}

impl SlackHandler {
    /// The identity under which the bot is mentioned.
    pub closed spec fn spec_my_id(&self) -> Seq<char> {
        self.my_id@
    }

    pub closed spec fn spec_state(&self) -> SessionState {
        self.state
    }

    pub closed spec fn spec_jira(&self) -> Jira {
        self.jira
    }

    /// A bot for the tracker `jira`, not yet connected and without an
    /// identity.
    pub fn new(jira: Jira) -> (r: SlackHandler)
        ensures
            r.spec_state() == SessionState::Disconnected,
            r.spec_my_id() == Seq::<char>::empty(),
            r.spec_jira() == jira,
    {
        SlackHandler { my_id: String::new(), jira, state: SessionState::Disconnected }
    }

    pub fn state(&self) -> (r: SessionState)
        ensures
            r == self.spec_state(),
    {
        self.state
    }

    pub fn my_id(&self) -> (r: &str)
        ensures
            r@ == self.spec_my_id(),
    {
        self.my_id.as_str()
    }

    pub fn jira(&self) -> (r: &Jira)
        ensures
            *r == self.spec_jira(),
    {
        &self.jira
    }

    /// The session is open. `identity` is what the chat service says the
    /// bot is. Without it the bot cannot tell which messages are for it:
    /// `AuthFailure`, and nothing changes. With it the session is connected
    /// under that identity, unless it was closed before: a closed session
    /// stays closed.
    pub fn on_connect(&mut self, identity: Option<String>) -> (r: Result<(), BotError>)
        ensures
            final(self).spec_jira() == old(self).spec_jira(),
            match identity {
                None => {
                    &&& r == Err::<(), BotError>(BotError::AuthFailure)
                    &&& final(self).spec_state() == old(self).spec_state()
                    &&& final(self).spec_my_id() == old(self).spec_my_id()
                },
                Some(id) => {
                    &&& r is Ok
                    &&& if old(self).spec_state() == SessionState::Closed {
                        &&& final(self).spec_state() == SessionState::Closed
                        &&& final(self).spec_my_id() == old(self).spec_my_id()
                    } else {
                        &&& final(self).spec_state() == SessionState::Connected
                        &&& final(self).spec_my_id() == id@
                    }
                },
            },
    {
        match identity {
            None => Err(BotError::AuthFailure),
            Some(id) => {
                match self.state {
                    SessionState::Closed => {},
                    _ => {
                        self.my_id = id;
                        self.state = SessionState::Connected;
                    },
                }
                Ok(())
            },
        }
    }

    /// The session is over.
    pub fn on_close(&mut self)
        ensures
            final(self).spec_state() == SessionState::Closed,
            final(self).spec_my_id() == old(self).spec_my_id(),
            final(self).spec_jira() == old(self).spec_jira(),
    {
        self.state = SessionState::Closed;
    }

    /// Decides what to do about the message `msg` on `channel`.
    pub fn process_message(&self, msg: &str, channel: &str) -> (r: Action)
        ensures
            r@ == spec_route(msg@, self.spec_my_id(), channel@),
    {
        route(msg, self.my_id.as_str(), channel)
    }

    /// What the bot does about an event while the session is in `state` and
    /// the bot's identity is `identity`. Only a connected session answers,
    /// and only to a standard message that has a text and a channel.
    pub open spec fn spec_on_event(state: SessionState, identity: Seq<char>, event: Event)
        -> ActionView {
        match event {
            Event::Message { text: Some(text), channel: Some(channel) } => if state
                == SessionState::Connected {
                spec_route(text@, identity, channel@)
            } else {
                ActionView::Ignore
            },
            _ => ActionView::Ignore,
        }
    }

    /// Decides what to do about an event.
    pub fn on_event(&self, event: &Event) -> (r: Action)
        ensures
            r@ == SlackHandler::spec_on_event(self.spec_state(), self.spec_my_id(), *event),
    {
        match self.state {
            SessionState::Connected => {},
            _ => {
                return Action::Ignore;
            },
        }
        match event {
            Event::Message { text: Some(text), channel: Some(channel) } => self.process_message(
                text.as_str(),
                channel.as_str(),
            ),
            _ => Action::Ignore,
        }
    }

    /// What to do once the request for a report ended with `outcome`: the
    /// report goes to `channel`, a failure to the log.
    pub fn sprint_report(&self, channel: &str, outcome: &HttpOutcome, now: i64) -> (r: Outbound)
        ensures
            r@ == spec_report_reply(
                channel@,
                spec_report_of_outcome(
                    *outcome,
                    self.spec_jira().spec_users(),
                    self.spec_jira().spec_host(),
                    self.spec_jira().spec_reference(),
                    now as int,
                ),
            ),
    {
        report_reply(channel, self.jira.sprint_report(outcome, now))
    }
}

} // verus!
