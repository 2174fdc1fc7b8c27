//! The command line of the timer: what the user may type, and what the timer
//! does with it.
//!
//! A line is split into words at white space. The first word names the
//! command; [`parse_command`] reads the words, and [`submit_command`] carries
//! the command out on a timer and says whether the line was valid and what to
//! answer.

use crate::pomodoro_timer::Forwarding;
use crate::pomodoro_timer::Period;
use crate::pomodoro_timer::PomodoroTimer;
use crate::pomodoro_timer::TimerState;
use crate::pomodoro_timer::TimerView;
use crate::run::Run;
use crate::run::RunLink;
use crate::text::fixed_text;
use crate::text::text_of;
use crate::text::texts;
use crate::time_span::TimeSpan;
use vstd::prelude::*;

verus! {

/// The commands that act on the timer itself.
#[derive(Debug, PartialEq, Eq, Structural, Clone, Copy, Hash)]
pub enum CommandStrings {
    UpdateDurations,
    ViewSettings,
    StartTimer,
    StopTimer,
    PauseTimer,
    Help,
}

/// How a line of the message history is to be read.
#[derive(Debug, PartialEq, Eq, Structural, Clone, Copy, Hash)]
pub enum MessageType {
    /// A line the user typed that was a command.
    ValidCommand,
    /// An answer of the timer.
    Information,
    /// A line the user typed that was no command.
    InvalidCommand,
}

/// A line as the user typed it, read as a command.
#[derive(Debug, PartialEq, Eq)]
pub enum Command {
    /// `start`
    Start,
    /// `stop`
    Stop,
    /// `pause`
    Pause,
    /// `help`
    Help,
    /// `set <working|breaking> <minutes>`: the phase if it was named, and the
    /// third word as it stands if there was one.
    SetPeriod { phase: Option<TimerState>, minutes: Option<String> },
    /// `stats <today|all-time>`: the period if it was named.
    Stats { period: Option<Period> },
    /// `login <user-name>`: the name if there was one.
    Login { username: Option<String> },
    /// `whoami`
    WhoAmI,
    /// `users`
    Users,
    /// Anything else, the empty line too.
    Unknown,
}

/// A [`Command`] over characters.
pub enum CommandView {
    Start,
    Stop,
    Pause,
    Help,
    SetPeriod { phase: Option<TimerState>, minutes: Option<Seq<char>> },
    Stats { period: Option<Period> },
    Login { username: Option<Seq<char>> },
    WhoAmI,
    Users,
    Unknown,
}

impl View for Command {
    type V = CommandView;

    open spec fn view(&self) -> CommandView {
        match *self {
            Command::Start => CommandView::Start,
            Command::Stop => CommandView::Stop,
            Command::Pause => CommandView::Pause,
            Command::Help => CommandView::Help,
            Command::SetPeriod { phase, minutes } => CommandView::SetPeriod {
                phase,
                minutes: text_of(minutes),
            },
            Command::Stats { period } => CommandView::Stats { period },
            Command::Login { username } => CommandView::Login {
                username: text_of(username),
            },
            Command::WhoAmI => CommandView::WhoAmI,
            Command::Users => CommandView::Users,
            Command::Unknown => CommandView::Unknown,
        }
    }
}

/// The words of a line: its pieces between stretches of white space, in
/// order.
pub uninterp spec fn words_of(line: Seq<char>) -> Seq<Seq<char>>;

/// `str::split_whitespace`: the words of `line`, each as a text of its own.
///
/// Taken on trust: the words are those that std finds, which [`words_of`]
/// names.
#[verifier::external_body]
pub(crate) fn split_whitespace(line: &str) -> (words: Vec<String>)
    ensures
        texts(words@) == words_of(line@),
{
    line.split_whitespace().map(str::to_owned).collect()
}

/// The word at `index`, if there are that many.
pub open spec fn word_at(words: Seq<Seq<char>>, index: int) -> Option<Seq<char>> {
    if 0 <= index < words.len() {
        Some(words[index])
    } else {
        None
    }
}

/// The phase that a word names.
pub open spec fn phase_named(word: Option<Seq<char>>) -> Option<TimerState> {
    if word == Some("working"@) {
        Some(TimerState::Working)
    } else if word == Some("breaking"@) {
        Some(TimerState::Breaking)
    } else {
        None
    }
}

/// The period that a word names.
pub open spec fn period_named(word: Option<Seq<char>>) -> Option<Period> {
    if word == Some("today"@) {
        Some(Period::Today)
    } else if word == Some("all-time"@) {
        Some(Period::AllTime)
    } else {
        None
    }
}

/// The command that the words make. Words are compared letter for letter;
/// what follows the words that a command reads is ignored.
pub open spec fn command_of(words: Seq<Seq<char>>) -> CommandView {
    let verb = word_at(words, 0);
    if verb == Some("start"@) {
        CommandView::Start
    } else if verb == Some("stop"@) {
        CommandView::Stop
    } else if verb == Some("pause"@) {
        CommandView::Pause
    } else if verb == Some("help"@) {
        CommandView::Help
    } else if verb == Some("set"@) {
        CommandView::SetPeriod { phase: phase_named(word_at(words, 1)), minutes: word_at(words, 2) }
    } else if verb == Some("stats"@) {
        CommandView::Stats { period: period_named(word_at(words, 1)) }
    } else if verb == Some("login"@) {
        CommandView::Login { username: word_at(words, 1) }
    } else if verb == Some("whoami"@) {
        CommandView::WhoAmI
    } else if verb == Some("users"@) {
        CommandView::Users
    } else {
        CommandView::Unknown
    }
}

/// Whether the word at `index` is there and reads `word`.
fn word_is(words: &Vec<String>, index: usize, word: &str) -> (same: bool)
    ensures
        same == (word_at(texts(words@), index as int) == Some(word@)),
{
    if index < words.len() {
        words[index] == word.to_owned()
    } else {
        false
    }
}

/// The word at `index`, if there are that many.
fn word_copy(words: &Vec<String>, index: usize) -> (word: Option<String>)
    ensures
        text_of(word) == word_at(texts(words@), index as int),
{
    if index < words.len() {
        Some(words[index].clone())
    } else {
        None
    }
}

/// Reads the words of a line as a command.
pub fn parse_command(words: &Vec<String>) -> (command: Command)
    ensures
        command@ == command_of(texts(words@)),
{
    if word_is(words, 0, "start") {
        Command::Start
    } else if word_is(words, 0, "stop") {
        Command::Stop
    } else if word_is(words, 0, "pause") {
        Command::Pause
    } else if word_is(words, 0, "help") {
        Command::Help
    } else if word_is(words, 0, "set") {
        let phase = if word_is(words, 1, "working") {
            Some(TimerState::Working)
        } else if word_is(words, 1, "breaking") {
            Some(TimerState::Breaking)
        } else {
            None
        };
        Command::SetPeriod { phase, minutes: word_copy(words, 2) }
    } else if word_is(words, 0, "stats") {
        let period = if word_is(words, 1, "today") {
            Some(Period::Today)
        } else if word_is(words, 1, "all-time") {
            Some(Period::AllTime)
        } else {
            None
        };
        Command::Stats { period }
    } else if word_is(words, 0, "login") {
        Command::Login { username: word_copy(words, 1) }
    } else if word_is(words, 0, "whoami") {
        Command::WhoAmI
    } else if word_is(words, 0, "users") {
        Command::Users
    } else {
        Command::Unknown
    }
}

/// Reads a line as a command: the command that its words make.
pub fn read_command(line: &str) -> (command: Command)
    ensures
        command@ == command_of(words_of(line@)),
{
    let words = split_whitespace(line);
    parse_command(&words)
}

/// What became of the minutes of a `set` command when they were read as a
/// number.
#[derive(Debug, PartialEq, Eq, Structural, Clone, Copy, Hash)]
pub enum TimeEntry {
    /// There were none.
    Missing,
    /// They were no number.
    Invalid,
    /// The whole seconds they come to.
    Seconds(u64),
}

/// An answer that is made from what is stored and known outside the timer.
#[derive(Debug, PartialEq, Eq, Structural, Clone, Copy, Hash)]
pub enum Request {
    /// The totals of the user over the period.
    Totals(Period),
    /// The name of the user who is signed in.
    SignedInUser,
    /// The names of all users.
    Users,
}

/// What the timer made of a command.
pub struct Submission {
    /// How the line is to be kept in the message history.
    pub validity: MessageType,
    /// The answer, where it is a fixed text.
    pub reply: Option<&'static str>,
    /// The answer, where it has to be made up.
    pub request: Option<Request>,
    /// The run that began, to be counted down on a thread of its own.
    pub run: Option<Run>,
}

/// The entry that counts for a `set` command: none when the line had no
/// third word.
pub open spec fn entry_of(minutes: Option<Seq<char>>, time: TimeEntry) -> TimeEntry {
    if minutes.is_none() {
        TimeEntry::Missing
    } else {
        time
    }
}

/// The ends at which the controller reaches the run that began, if one did.
pub open spec fn link_of(run: Option<Run>) -> RunLink {
    match run {
        Some(run) => run.link(),
        None => arbitrary(),
    }
}

/// The timer after `command`. Starting takes a user, and `link` is where the
/// run ends that begins then; a duration is set, and the run stopped for it,
/// only when both the phase and the time are good.
pub open spec fn timer_after(
    timer: TimerView,
    command: CommandView,
    time: TimeEntry,
    link: RunLink,
) -> TimerView {
    match command {
        CommandView::Start => if timer.username.is_some() {
            timer.start(link)
        } else {
            timer
        },
        CommandView::Stop => timer.stop(),
        CommandView::Pause => timer.pause(),
        CommandView::SetPeriod { phase, minutes } => match (phase, entry_of(minutes, time)) {
            (Some(state), TimeEntry::Seconds(secs)) => timer.stop().with_period(
                (secs as nat) * 1_000_000_000,
                state,
            ),
            _ => timer,
        },
        CommandView::Login { username: Some(name) } => timer.sign_in(name),
        _ => timer,
    }
}

/// Whether a `set` command names a phase and gives a time that is a number.
pub open spec fn sets_period(phase: Option<TimerState>, entry: TimeEntry) -> bool {
    phase.is_some() && entry is Seconds
}

/// Whether the line was a valid command. A line is rejected when it names no
/// command, when it asks for a start with nobody signed in, and when what
/// follows the command cannot be read: a phase or a period that is not
/// named, a time that is missing or no number.
pub open spec fn validity_of(timer: TimerView, command: CommandView, time: TimeEntry) -> MessageType {
    match command {
        CommandView::Start => if timer.username.is_some() {
            MessageType::ValidCommand
        } else {
            MessageType::InvalidCommand
        },
        CommandView::SetPeriod { phase, minutes } => if sets_period(
            phase,
            entry_of(minutes, time),
        ) {
            MessageType::ValidCommand
        } else {
            MessageType::InvalidCommand
        },
        CommandView::Stats { period } => if period.is_some() {
            MessageType::ValidCommand
        } else {
            MessageType::InvalidCommand
        },
        CommandView::Unknown => MessageType::InvalidCommand,
        _ => MessageType::ValidCommand,
    }
}

/// The answer to a command for a run that could not be forwarded.
pub open spec fn forwarding_reply(forwarding: Forwarding) -> Option<Seq<char>> {
    if forwarding == Forwarding::NoCommander {
        Some("Have to start a sessions to give commands"@)
    } else {
        None
    }
}

/// The fixed text that answers the command, if one does. Every line that is
/// rejected is answered.
pub open spec fn reply_of(timer: TimerView, command: CommandView, time: TimeEntry) -> Option<
    Seq<char>,
> {
    match command {
        CommandView::Start => if timer.username.is_none() {
            Some("You have to login with a user before you can start a session"@)
        } else if timer.starts_run() {
            None
        } else {
            forwarding_reply(timer.resuming())
        },
        CommandView::Stop => forwarding_reply(timer.forwarding()),
        CommandView::Pause => forwarding_reply(timer.forwarding()),
        CommandView::Help => Some(
            "Commands: Start, Stop, Pause, Set <state> <duration in min>, stats <today, all-time>, login <user-name>, whoami, users"@,
        ),
        CommandView::SetPeriod { phase, minutes } => if entry_of(minutes, time)
            == TimeEntry::Invalid {
            Some("Invalid time"@)
        } else if phase.is_none() {
            Some("Can only set the time for working or breaking. "@)
        } else if entry_of(minutes, time) == TimeEntry::Missing {
            Some("Enter a time in minutes please"@)
        } else {
            None
        },
        CommandView::Stats { period } => if period.is_none() {
            Some("Can only show the stats for today or all-time. "@)
        } else {
            None
        },
        CommandView::Login { username } => if username.is_none() {
            Some("Enter a username please"@)
        } else if timer.admits_sign_in() {
            Some("You are signed in!"@)
        } else {
            Some("Something went wrong trying to sign you in"@)
        },
        CommandView::WhoAmI => if timer.username.is_some() {
            None
        } else {
            Some("You are not signed in"@)
        },
        CommandView::Users => None,
        CommandView::Unknown => Some("Unknown command. Enter help to see the commands"@),
    }
}

/// The answer that has to be made up for the command, if one has.
pub open spec fn request_of(timer: TimerView, command: CommandView) -> Option<Request> {
    match command {
        CommandView::Stats { period: Some(period) } => Some(Request::Totals(period)),
        CommandView::WhoAmI => if timer.username.is_some() {
            Some(Request::SignedInUser)
        } else {
            None
        },
        CommandView::Users => Some(Request::Users),
        _ => None,
    }
}

/// Whether the command begins a run.
pub open spec fn begins_run(timer: TimerView, command: CommandView) -> bool {
    command == CommandView::Start && timer.username.is_some() && timer.starts_run()
}

/// The answer to a command for a run that could not be forwarded.
fn forwarding_text(forwarding: Forwarding) -> (reply: Option<&'static str>)
    ensures
        fixed_text(reply) == forwarding_reply(forwarding),
{
    match forwarding {
        Forwarding::NoCommander => Some("Have to start a sessions to give commands"),
        _ => None,
    }
}

/// Carries `command` out on `timer`.
///
/// `time` is what the minutes of a `set` command came to when they were read
/// as a number; it is looked at for no other command, and not when the line
/// had no minutes.
pub fn submit_command(timer: &mut PomodoroTimer, command: &Command, time: TimeEntry) -> (done:
    Submission)
    ensures
        final(timer)@ == timer_after(old(timer)@, command@, time, link_of(done.run)),
        done.validity == validity_of(old(timer)@, command@, time),
        fixed_text(done.reply) == reply_of(old(timer)@, command@, time),
        done.validity == MessageType::InvalidCommand ==> done.reply.is_some(),
        done.request == request_of(old(timer)@, command@),
        done.run.is_some() == begins_run(old(timer)@, command@),
        done.run.is_some() ==> done.run.unwrap()@ == old(timer)@.plan(),
{
    match command {
        Command::Start => {
            if timer.is_user_signed_in() {
                let reply = if timer.get_state() == TimerState::Idle || timer.has_commander() {
                    None
                } else {
                    forwarding_text(Forwarding::NoCommander)
                };
                let run = timer.start_timer();
                Submission { validity: MessageType::ValidCommand, reply, request: None, run }
            } else {
                Submission {
                    validity: MessageType::InvalidCommand,
                    reply: Some("You have to login with a user before you can start a session"),
                    request: None,
                    run: None,
                }
            }
        },
        Command::Stop => {
            let forwarding = timer.stop_timer();
            Submission {
                validity: MessageType::ValidCommand,
                reply: forwarding_text(forwarding),
                request: None,
                run: None,
            }
        },
        Command::Pause => {
            let forwarding = timer.pause_timer();
            Submission {
                validity: MessageType::ValidCommand,
                reply: forwarding_text(forwarding),
                request: None,
                run: None,
            }
        },
        Command::Help => Submission {
            validity: MessageType::ValidCommand,
            reply: Some(
                "Commands: Start, Stop, Pause, Set <state> <duration in min>, stats <today, all-time>, login <user-name>, whoami, users",
            ),
            request: None,
            run: None,
        },
        Command::SetPeriod { phase, minutes } => {
            let entry = if minutes.is_none() {
                TimeEntry::Missing
            } else {
                time
            };
            match (phase, entry) {
                (Some(state), TimeEntry::Seconds(secs)) => {
                    timer.set_state_time_period(TimeSpan::from_secs(secs), *state);
                    Submission {
                        validity: MessageType::ValidCommand,
                        reply: None,
                        request: None,
                        run: None,
                    }
                },
                (_, TimeEntry::Invalid) => Submission {
                    validity: MessageType::InvalidCommand,
                    reply: Some("Invalid time"),
                    request: None,
                    run: None,
                },
                (None, _) => Submission {
                    validity: MessageType::InvalidCommand,
                    reply: Some("Can only set the time for working or breaking. "),
                    request: None,
                    run: None,
                },
                (Some(_), TimeEntry::Missing) => Submission {
                    validity: MessageType::InvalidCommand,
                    reply: Some("Enter a time in minutes please"),
                    request: None,
                    run: None,
                },
            }
        },
        Command::Stats { period } => match period {
            Some(period) => Submission {
                validity: MessageType::ValidCommand,
                reply: None,
                request: Some(Request::Totals(*period)),
                run: None,
            },
            None => Submission {
                validity: MessageType::InvalidCommand,
                reply: Some("Can only show the stats for today or all-time. "),
                request: None,
                run: None,
            },
        },
        Command::Login { username } => {
            let reply = match username {
                Some(name) => {
                    if timer.sign_in(name.as_str()) {
                        "You are signed in!"
                    } else {
                        "Something went wrong trying to sign you in"
                    }
                },
                None => "Enter a username please",
            };
            Submission {
                validity: MessageType::ValidCommand,
                reply: Some(reply),
                request: None,
                run: None,
            }
        },
        Command::WhoAmI => {
            if timer.is_user_signed_in() {
                Submission {
                    validity: MessageType::ValidCommand,
                    reply: None,
                    request: Some(Request::SignedInUser),
                    run: None,
                }
            } else {
                Submission {
                    validity: MessageType::ValidCommand,
                    reply: Some("You are not signed in"),
                    request: None,
                    run: None,
                }
            }
        },
        Command::Users => Submission {
            validity: MessageType::ValidCommand,
            reply: None,
            request: Some(Request::Users),
            run: None,
        },
        Command::Unknown => Submission {
            validity: MessageType::InvalidCommand,
            reply: Some("Unknown command. Enter help to see the commands"),
            request: None,
            run: None,
        },
    }
}

} // verus!
