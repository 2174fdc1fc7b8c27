use pomodorotimer::history::HistoryKey;
use pomodorotimer::keys::{on_key, InputMode, Key, KeyAction};
use pomodorotimer::ticker::{TickAction, Ticker, TICK_MILLIS};
use pomodorotimer::time_span::TimeSpan;

const ALL_KEYS: [Key; 10] = [
    Key::Char('e'),
    Key::Char('q'),
    Key::Enter,
    Key::Backspace,
    Key::Left,
    Key::Right,
    Key::Up,
    Key::Down,
    Key::Esc,
    Key::Other,
];

#[test]
fn normal_mode_knows_two_keys() {
    for pressed in [true, false] {
        assert_eq!(
            on_key(InputMode::Normal, Key::Char('e'), pressed),
            KeyAction::SwitchTo(InputMode::Editing)
        );
        assert_eq!(on_key(InputMode::Normal, Key::Char('q'), pressed), KeyAction::Quit);
        assert_eq!(on_key(InputMode::Normal, Key::Char('E'), pressed), KeyAction::Nothing);
        assert_eq!(on_key(InputMode::Normal, Key::Char('x'), pressed), KeyAction::Nothing);
        for key in &ALL_KEYS[2..] {
            assert_eq!(on_key(InputMode::Normal, *key, pressed), KeyAction::Nothing);
        }
    }
}

#[test]
fn editing_mode_edits_the_line() {
    let editing = InputMode::Editing;
    assert_eq!(on_key(editing, Key::Enter, true), KeyAction::Submit);
    assert_eq!(on_key(editing, Key::Char('e'), true), KeyAction::Insert('e'));
    assert_eq!(on_key(editing, Key::Char('q'), true), KeyAction::Insert('q'));
    assert_eq!(on_key(editing, Key::Char(' '), true), KeyAction::Insert(' '));
    assert_eq!(on_key(editing, Key::Backspace, true), KeyAction::DeletePrevChar);
    assert_eq!(on_key(editing, Key::Left, true), KeyAction::MoveLeft);
    assert_eq!(on_key(editing, Key::Right, true), KeyAction::MoveRight);
    assert_eq!(on_key(editing, Key::Up, true), KeyAction::Recall(HistoryKey::Up));
    assert_eq!(on_key(editing, Key::Down, true), KeyAction::Recall(HistoryKey::Down));
    assert_eq!(on_key(editing, Key::Esc, true), KeyAction::SwitchTo(InputMode::Normal));
    assert_eq!(on_key(editing, Key::Other, true), KeyAction::Nothing);
}

#[test]
fn editing_mode_ignores_keys_that_did_not_go_down() {
    for key in ALL_KEYS {
        assert_eq!(on_key(InputMode::Editing, key, false), KeyAction::Nothing);
    }
}

#[test]
fn only_entering_a_mode_changes_the_mode() {
    for mode in [InputMode::Normal, InputMode::Editing] {
        assert_eq!(mode.after(KeyAction::SwitchTo(InputMode::Editing)), InputMode::Editing);
        assert_eq!(mode.after(KeyAction::SwitchTo(InputMode::Normal)), InputMode::Normal);
        for action in [
            KeyAction::Nothing,
            KeyAction::Quit,
            KeyAction::Submit,
            KeyAction::Insert('e'),
            KeyAction::DeletePrevChar,
            KeyAction::MoveLeft,
            KeyAction::MoveRight,
            KeyAction::Recall(HistoryKey::Up),
        ] {
            assert_eq!(mode.after(action), mode);
        }
    }
}

#[test]
fn ticks_are_one_second_apart() {
    assert_eq!(TICK_MILLIS, 1000);
    let mut ticker = Ticker::new(TimeSpan::from_millis(250));
    assert_eq!(
        ticker.poll(TimeSpan::from_millis(250)),
        TickAction::Sleep(TimeSpan::from_millis(1000))
    );
    assert_eq!(
        ticker.poll(TimeSpan::from_millis(1249)),
        TickAction::Sleep(TimeSpan::from_millis(1))
    );
    assert_eq!(ticker.poll(TimeSpan::from_millis(1250)), TickAction::Tick);
    assert_eq!(
        ticker.poll(TimeSpan::from_millis(1250)),
        TickAction::Sleep(TimeSpan::from_millis(1000))
    );
}

#[test]
fn late_ticks_do_not_add_up() {
    let mut ticker = Ticker::new(TimeSpan::zero());

    // the first tick is noticed 300 ms late: the second is still due at 2 s
    assert_eq!(ticker.poll(TimeSpan::from_millis(1300)), TickAction::Tick);
    assert_eq!(
        ticker.poll(TimeSpan::from_millis(1300)),
        TickAction::Sleep(TimeSpan::from_millis(700))
    );

    // after a long stall the ticks that were missed come one after the other
    assert_eq!(ticker.poll(TimeSpan::from_millis(4100)), TickAction::Tick);
    assert_eq!(ticker.poll(TimeSpan::from_millis(4100)), TickAction::Tick);
    assert_eq!(ticker.poll(TimeSpan::from_millis(4100)), TickAction::Tick);
    assert_eq!(
        ticker.poll(TimeSpan::from_millis(4100)),
        TickAction::Sleep(TimeSpan::from_millis(900))
    );
}

#[test]
fn ticker_at_the_end_of_time_keeps_ticking() {
    let mut ticker = Ticker::new(TimeSpan::max_value());
    assert_eq!(ticker.poll(TimeSpan::from_secs(1)), TickAction::Sleep(
        TimeSpan::max_value().saturating_sub(&TimeSpan::from_secs(1))
    ));
    assert_eq!(ticker.poll(TimeSpan::max_value()), TickAction::Tick);
    assert_eq!(ticker.poll(TimeSpan::max_value()), TickAction::Tick);
}
