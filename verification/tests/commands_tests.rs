use pomodorotimer::commands::{
    parse_command, read_command, submit_command, Command, CommandStrings, MessageType, Request,
    TimeEntry,
};
use pomodorotimer::history::{HistoryKey, MessageHistory};
use pomodorotimer::pomodoro_timer::{Period, PomodoroTimer, TimerState};
use pomodorotimer::time_span::TimeSpan;
use pomodorotimer::timer_commander::TimerCommand;
use std::sync::mpsc::TryRecvError;

fn words(words: &[&str]) -> Vec<String> {
    words.iter().map(|word| word.to_string()).collect()
}

fn set(phase: Option<TimerState>, minutes: Option<&str>) -> Command {
    Command::SetPeriod { phase, minutes: minutes.map(String::from) }
}

#[test]
fn timer_commands_are_told_apart() {
    assert_ne!(CommandStrings::StartTimer, CommandStrings::StopTimer);
    assert_ne!(CommandStrings::PauseTimer, CommandStrings::Help);
    assert_ne!(CommandStrings::UpdateDurations, CommandStrings::ViewSettings);
}

#[test]
fn lines_are_split_at_white_space() {
    assert_eq!(read_command("start"), Command::Start);
    assert_eq!(read_command("  start  "), Command::Start);
    assert_eq!(read_command("\tset \t working\n 25 "), set(Some(TimerState::Working), Some("25")));
    assert_eq!(read_command("login   alice"), Command::Login { username: Some("alice".to_string()) });
    assert_eq!(read_command(""), Command::Unknown);
    assert_eq!(read_command("   "), Command::Unknown);
    assert_eq!(read_command("setworking 25"), Command::Unknown);
}

#[test]
fn first_word_names_the_command() {
    assert_eq!(read_command("start"), Command::Start);
    assert_eq!(read_command("stop"), Command::Stop);
    assert_eq!(read_command("pause"), Command::Pause);
    assert_eq!(read_command("help"), Command::Help);
    assert_eq!(read_command("whoami"), Command::WhoAmI);
    assert_eq!(read_command("users"), Command::Users);
    assert_eq!(read_command("start now please"), Command::Start);
    assert_eq!(read_command("please start"), Command::Unknown);
    assert_eq!(read_command("Start"), Command::Unknown);
    assert_eq!(read_command("resume"), Command::Unknown);
    assert_eq!(read_command("starts"), Command::Unknown);
}

#[test]
fn set_reads_a_phase_and_minutes() {
    assert_eq!(read_command("set working 25"), set(Some(TimerState::Working), Some("25")));
    assert_eq!(read_command("set breaking 0.5"), set(Some(TimerState::Breaking), Some("0.5")));
    assert_eq!(read_command("set breaking soon"), set(Some(TimerState::Breaking), Some("soon")));
    assert_eq!(read_command("set idle 5"), set(None, Some("5")));
    assert_eq!(read_command("set Working 5"), set(None, Some("5")));
    assert_eq!(read_command("set working"), set(Some(TimerState::Working), None));
    assert_eq!(read_command("set"), set(None, None));
    assert_eq!(read_command("set working 25 30"), set(Some(TimerState::Working), Some("25")));
}

#[test]
fn stats_reads_a_period() {
    assert_eq!(read_command("stats today"), Command::Stats { period: Some(Period::Today) });
    assert_eq!(read_command("stats all-time"), Command::Stats { period: Some(Period::AllTime) });
    assert_eq!(read_command("stats alltime"), Command::Stats { period: None });
    assert_eq!(read_command("stats"), Command::Stats { period: None });
}

#[test]
fn login_reads_a_name() {
    assert_eq!(read_command("login alice"), Command::Login { username: Some("alice".to_string()) });
    assert_eq!(read_command("login alice bob"), Command::Login { username: Some("alice".to_string()) });
    assert_eq!(read_command("login"), Command::Login { username: None });
}

#[test]
fn words_are_read_as_they_are_given() {
    assert_eq!(parse_command(&words(&["pause"])), Command::Pause);
    assert_eq!(parse_command(&words(&[])), Command::Unknown);
    assert_eq!(parse_command(&words(&["", "pause"])), Command::Unknown);
    assert_eq!(parse_command(&words(&["pause "])), Command::Unknown);
    assert_eq!(
        parse_command(&words(&["set", "breaking", "1 2"])),
        set(Some(TimerState::Breaking), Some("1 2"))
    );
}

#[test]
fn start_needs_a_user() {
    let mut timer = PomodoroTimer::new(10, 5);
    let done = submit_command(&mut timer, &Command::Start, TimeEntry::Missing);
    assert_eq!(done.validity, MessageType::InvalidCommand);
    assert_eq!(done.reply, Some("You have to login with a user before you can start a session"));
    assert_eq!(done.request, None);
    assert!(done.run.is_none());
    assert_eq!(timer.get_state(), TimerState::Idle);
}

#[test]
fn start_begins_one_run() {
    let mut timer = PomodoroTimer::new(10, 5);
    assert!(timer.sign_in("alice"));
    let done = submit_command(&mut timer, &Command::Start, TimeEntry::Missing);
    assert_eq!(done.validity, MessageType::ValidCommand);
    assert_eq!(done.reply, None);
    assert_eq!(done.request, None);
    let run = done.run.expect("an idle timer begins a run");
    assert_eq!(run.countdown().duration(), TimeSpan::from_secs(10));
    assert_eq!(timer.get_state(), TimerState::Working);

    let again = submit_command(&mut timer, &Command::Start, TimeEntry::Missing);
    assert_eq!(again.validity, MessageType::ValidCommand);
    assert!(again.run.is_none());
    assert_eq!(run.command_receiver().try_recv(), Ok(TimerCommand::Start));
}

#[test]
fn stop_and_pause_reach_the_run() {
    let mut timer = PomodoroTimer::new(10, 5);
    let run = timer.start_run();
    let done = submit_command(&mut timer, &Command::Pause, TimeEntry::Missing);
    assert_eq!(done.validity, MessageType::ValidCommand);
    assert_eq!(done.reply, None);
    assert_eq!(timer.get_state(), TimerState::Working);
    let done = submit_command(&mut timer, &Command::Stop, TimeEntry::Missing);
    assert_eq!(done.validity, MessageType::ValidCommand);
    assert_eq!(done.reply, None);
    assert_eq!(timer.get_state(), TimerState::Idle);
    assert_eq!(run.command_receiver().try_recv(), Ok(TimerCommand::Pause));
    assert_eq!(run.command_receiver().try_recv(), Ok(TimerCommand::Stop));
    assert_eq!(run.command_receiver().try_recv(), Err(TryRecvError::Empty));
}

#[test]
fn help_lists_the_commands() {
    let mut timer = PomodoroTimer::new(10, 5);
    let done = submit_command(&mut timer, &Command::Help, TimeEntry::Missing);
    assert_eq!(done.validity, MessageType::ValidCommand);
    assert_eq!(
        done.reply,
        Some("Commands: Start, Stop, Pause, Set <state> <duration in min>, stats <today, all-time>, login <user-name>, whoami, users")
    );
}

#[test]
fn set_with_a_phase_and_a_time_sets_the_duration() {
    let mut timer = PomodoroTimer::new(10, 5);
    let run = timer.start_run();
    let command = set(Some(TimerState::Working), Some("1.5"));
    let done = submit_command(&mut timer, &command, TimeEntry::Seconds(90));
    assert_eq!(done.validity, MessageType::ValidCommand);
    assert_eq!(done.reply, None);
    assert_eq!(timer.get_work_duration(), TimeSpan::from_secs(90));
    assert_eq!(timer.get_break_duration(), TimeSpan::from_secs(5));
    assert_eq!(timer.get_state(), TimerState::Idle);
    assert_eq!(run.command_receiver().try_recv(), Ok(TimerCommand::Stop));

    let command = set(Some(TimerState::Breaking), Some("0"));
    let done = submit_command(&mut timer, &command, TimeEntry::Seconds(0));
    assert_eq!(done.validity, MessageType::ValidCommand);
    assert_eq!(timer.get_break_duration(), TimeSpan::zero());
}

#[test]
fn set_with_a_bad_time_or_phase_is_rejected_and_sets_nothing() {
    let mut timer = PomodoroTimer::new(10, 5);
    let run = timer.start_run();
    let cases = [
        (set(Some(TimerState::Working), None), TimeEntry::Missing, "Enter a time in minutes please"),
        (set(Some(TimerState::Working), Some("abc")), TimeEntry::Invalid, "Invalid time"),
        (set(Some(TimerState::Breaking), Some("soon")), TimeEntry::Invalid, "Invalid time"),
        (set(None, None), TimeEntry::Missing, "Can only set the time for working or breaking. "),
        (set(None, Some("soon")), TimeEntry::Invalid, "Invalid time"),
        (
            set(None, Some("25")),
            TimeEntry::Seconds(1500),
            "Can only set the time for working or breaking. ",
        ),
        // without minutes on the line the entry is not looked at
        (
            set(Some(TimerState::Working), None),
            TimeEntry::Seconds(1500),
            "Enter a time in minutes please",
        ),
        (set(Some(TimerState::Working), None), TimeEntry::Invalid, "Enter a time in minutes please"),
    ];
    for (command, time, reply) in cases {
        let done = submit_command(&mut timer, &command, time);
        assert_eq!(done.validity, MessageType::InvalidCommand);
        assert_eq!(done.reply, Some(reply));
        assert_eq!(done.request, None);
        assert!(done.run.is_none());
        assert_eq!(timer.get_work_duration(), TimeSpan::from_secs(10));
        assert_eq!(timer.get_break_duration(), TimeSpan::from_secs(5));
        assert_eq!(timer.get_state(), TimerState::Working);
    }
    assert_eq!(run.command_receiver().try_recv(), Err(TryRecvError::Empty));
}

#[test]
fn set_with_a_time_that_is_no_number_is_rejected() {
    // the line "set working abc", with a run on
    let mut timer = PomodoroTimer::new(25 * 60, 5 * 60);
    let run = timer.start_run();
    let command = read_command("set working abc");
    assert_eq!(command, set(Some(TimerState::Working), Some("abc")));
    let done = submit_command(&mut timer, &command, TimeEntry::Invalid);
    assert_eq!(done.validity, MessageType::InvalidCommand);
    assert_eq!(done.reply, Some("Invalid time"));
    assert_eq!(timer.get_work_duration(), TimeSpan::from_secs(25 * 60));
    assert_eq!(timer.get_break_duration(), TimeSpan::from_secs(5 * 60));
    assert_eq!(timer.get_state(), TimerState::Working);
    assert_eq!(run.command_receiver().try_recv(), Err(TryRecvError::Empty));
}

#[test]
fn every_rejected_line_is_answered() {
    let mut timer = PomodoroTimer::new(10, 5);
    for line in ["", "strat", "start", "set", "set working", "set nap 5", "set working x", "stats", "stats week"] {
        let done = submit_command(&mut timer, &read_command(line), TimeEntry::Invalid);
        assert_eq!(done.validity, MessageType::InvalidCommand);
        assert!(done.reply.is_some());
        assert_eq!(done.request, None);
        assert!(done.run.is_none());
        assert_eq!(timer.get_state(), TimerState::Idle);
    }
}

#[test]
fn commands_for_a_run_that_is_not_there_are_answered() {
    // a state that was published without a run behind it
    let mut timer = PomodoroTimer::new(10, 5);
    assert!(timer.sign_in("alice"));
    timer.update_state(TimerState::Working);
    for command in [Command::Pause, Command::Start, Command::Stop] {
        let done = submit_command(&mut timer, &command, TimeEntry::Missing);
        assert_eq!(done.validity, MessageType::ValidCommand);
        assert_eq!(done.reply, Some("Have to start a sessions to give commands"));
        assert!(done.run.is_none());
    }
    assert_eq!(timer.get_state(), TimerState::Idle);

    // an idle timer has nothing to pause or stop, and says nothing of it
    for command in [Command::Pause, Command::Stop] {
        let done = submit_command(&mut timer, &command, TimeEntry::Missing);
        assert_eq!(done.validity, MessageType::ValidCommand);
        assert_eq!(done.reply, None);
    }
}

#[test]
fn login_signs_in_on_an_idle_timer() {
    let mut timer = PomodoroTimer::new(10, 5);
    let alice = Command::Login { username: Some("alice".to_string()) };
    let done = submit_command(&mut timer, &alice, TimeEntry::Missing);
    assert_eq!(done.validity, MessageType::ValidCommand);
    assert_eq!(done.reply, Some("You are signed in!"));
    assert_eq!(timer.get_username(), Some("alice".to_string()));

    let nobody = Command::Login { username: None };
    let done = submit_command(&mut timer, &nobody, TimeEntry::Missing);
    assert_eq!(done.validity, MessageType::ValidCommand);
    assert_eq!(done.reply, Some("Enter a username please"));
    assert_eq!(timer.get_username(), Some("alice".to_string()));

    let _run = timer.start_run();
    let bob = Command::Login { username: Some("bob".to_string()) };
    let done = submit_command(&mut timer, &bob, TimeEntry::Missing);
    assert_eq!(done.validity, MessageType::ValidCommand);
    assert_eq!(done.reply, Some("Something went wrong trying to sign you in"));
    assert_eq!(timer.get_username(), Some("alice".to_string()));
}

#[test]
fn answers_from_outside_are_asked_for() {
    let mut timer = PomodoroTimer::new(10, 5);
    let done = submit_command(&mut timer, &Command::WhoAmI, TimeEntry::Missing);
    assert_eq!(done.validity, MessageType::ValidCommand);
    assert_eq!(done.reply, Some("You are not signed in"));
    assert_eq!(done.request, None);

    assert!(timer.sign_in("alice"));
    let done = submit_command(&mut timer, &Command::WhoAmI, TimeEntry::Missing);
    assert_eq!(done.validity, MessageType::ValidCommand);
    assert_eq!(done.reply, None);
    assert_eq!(done.request, Some(Request::SignedInUser));

    let done = submit_command(&mut timer, &Command::Users, TimeEntry::Missing);
    assert_eq!(done.validity, MessageType::ValidCommand);
    assert_eq!(done.request, Some(Request::Users));

    for period in [Period::Today, Period::AllTime] {
        let stats = Command::Stats { period: Some(period) };
        let done = submit_command(&mut timer, &stats, TimeEntry::Missing);
        assert_eq!(done.validity, MessageType::ValidCommand);
        assert_eq!(done.reply, None);
        assert_eq!(done.request, Some(Request::Totals(period)));
    }
}

#[test]
fn stats_without_a_period_are_rejected() {
    let mut timer = PomodoroTimer::new(10, 5);
    assert!(timer.sign_in("alice"));
    for line in ["stats", "stats week", "stats Today"] {
        let done = submit_command(&mut timer, &read_command(line), TimeEntry::Missing);
        assert_eq!(done.validity, MessageType::InvalidCommand);
        assert_eq!(done.reply, Some("Can only show the stats for today or all-time. "));
        assert_eq!(done.request, None);
    }
}

#[test]
fn unknown_command_is_invalid() {
    let mut timer = PomodoroTimer::new(10, 5);
    let _run = timer.start_run();
    let done = submit_command(&mut timer, &Command::Unknown, TimeEntry::Seconds(3));
    assert_eq!(done.validity, MessageType::InvalidCommand);
    assert_eq!(done.reply, Some("Unknown command. Enter help to see the commands"));
    assert_eq!(done.request, None);
    assert!(done.run.is_none());
    assert_eq!(timer.get_state(), TimerState::Working);
    assert_eq!(timer.get_work_duration(), TimeSpan::from_secs(10));
}

#[test]
fn history_keeps_lines_and_answers() {
    let mut history = MessageHistory::new();
    assert!(history.messages().is_empty());
    history.record("help".to_string(), MessageType::ValidCommand, Some("Commands".to_string()));
    history.record("hlep".to_string(), MessageType::InvalidCommand, None);
    assert_eq!(
        history.messages(),
        &vec![
            ("help".to_string(), MessageType::ValidCommand),
            ("Commands".to_string(), MessageType::Information),
            ("hlep".to_string(), MessageType::InvalidCommand),
        ]
    );
}

#[test]
fn up_recalls_valid_commands_latest_first() {
    let mut history = MessageHistory::new();
    history.record("login alice".to_string(), MessageType::ValidCommand, Some("You are signed in!".to_string()));
    history.record("strat".to_string(), MessageType::InvalidCommand, None);
    history.record("start".to_string(), MessageType::ValidCommand, None);
    history.record("set nap 5".to_string(), MessageType::InvalidCommand, Some("Can only".to_string()));

    assert_eq!(history.choose_prev_command(HistoryKey::Up), Some("start".to_string()));
    assert_eq!(history.choose_prev_command(HistoryKey::Up), Some("login alice".to_string()));

    // further back than the history goes: the input stays, the cursor moves on
    assert_eq!(history.choose_prev_command(HistoryKey::Up), None);
    assert_eq!(history.choose_prev_command(HistoryKey::Up), None);
    assert_eq!(history.choose_prev_command(HistoryKey::Down), None);
    assert_eq!(history.choose_prev_command(HistoryKey::Down), Some("login alice".to_string()));
    assert_eq!(history.choose_prev_command(HistoryKey::Down), Some("start".to_string()));
    assert_eq!(history.choose_prev_command(HistoryKey::Down), Some(String::new()));
    assert_eq!(history.choose_prev_command(HistoryKey::Down), Some(String::new()));
    assert_eq!(history.choose_prev_command(HistoryKey::Up), Some("start".to_string()));
}

#[test]
fn submitting_a_line_puts_the_cursor_back() {
    let mut history = MessageHistory::new();
    history.record("start".to_string(), MessageType::ValidCommand, None);
    history.record("pause".to_string(), MessageType::ValidCommand, None);
    assert_eq!(history.choose_prev_command(HistoryKey::Up), Some("pause".to_string()));
    assert_eq!(history.choose_prev_command(HistoryKey::Up), Some("start".to_string()));
    history.record("stop".to_string(), MessageType::ValidCommand, None);
    assert_eq!(history.choose_prev_command(HistoryKey::Up), Some("stop".to_string()));
    assert_eq!(history.choose_prev_command(HistoryKey::Up), Some("pause".to_string()));
}

#[test]
fn empty_history_recalls_nothing() {
    let mut history = MessageHistory::new();
    assert_eq!(history.choose_prev_command(HistoryKey::Down), Some(String::new()));
    assert_eq!(history.choose_prev_command(HistoryKey::Up), None);
    assert_eq!(history.choose_prev_command(HistoryKey::Down), Some(String::new()));

    history.record("oops".to_string(), MessageType::InvalidCommand, None);
    assert_eq!(history.choose_prev_command(HistoryKey::Up), None);
}
