use adt::tui::{
    command, poll_timeout, tick_elapsed, Command, Direction, KeyCode, KeyEvent, KeyModifiers,
    Step, TerminalSession, Tui, PAGE, STEP, TICK_RATE_MS,
};

fn plain(code: KeyCode) -> KeyEvent {
    KeyEvent { code, modifiers: KeyModifiers::Plain }
}

fn shift(code: KeyCode) -> KeyEvent {
    KeyEvent { code, modifiers: KeyModifiers::Shift }
}

fn run(outcomes: &[bool]) -> (TerminalSession, Vec<Step>) {
    let mut session = TerminalSession::new();
    let mut taken = Vec::new();
    let mut i = 0;
    while let Some(step) = session.next_step() {
        taken.push(step);
        session.step_done(outcomes[i]);
        i += 1;
    }
    (session, taken)
}

#[test]
fn initial_state_is_the_top_left_corner() {
    let tui = Tui::default();
    assert_eq!(tui.vertical_scroll, 0);
    assert_eq!(tui.horizontal_scroll, 0);
}

#[test]
fn down_five_up_two_leaves_three() {
    let mut tui = Tui::default();
    for _ in 0..5 {
        assert!(!tui.handle_key(plain(KeyCode::Down)));
    }
    for _ in 0..2 {
        assert!(!tui.handle_key(plain(KeyCode::Up)));
    }
    assert_eq!(tui.vertical_scroll, 3);
    assert_eq!(tui.horizontal_scroll, 0);
}

#[test]
fn up_at_the_top_stays_at_zero() {
    let mut tui = Tui::default();
    assert!(!tui.handle_key(plain(KeyCode::Up)));
    assert_eq!(tui.vertical_scroll, 0);
    assert!(!tui.handle_key(shift(KeyCode::Char('k'))));
    assert_eq!(tui.vertical_scroll, 0);
    assert!(!tui.handle_key(plain(KeyCode::Left)));
    assert!(!tui.handle_key(shift(KeyCode::Char('h'))));
    assert_eq!(tui.horizontal_scroll, 0);
}

#[test]
fn letters_scroll_like_arrows() {
    let mut tui = Tui::default();
    tui.handle_key(plain(KeyCode::Char('j')));
    tui.handle_key(plain(KeyCode::Char('j')));
    tui.handle_key(plain(KeyCode::Char('l')));
    tui.handle_key(plain(KeyCode::Char('l')));
    tui.handle_key(plain(KeyCode::Char('l')));
    assert_eq!(tui, Tui { vertical_scroll: 2, horizontal_scroll: 3 });
    tui.handle_key(plain(KeyCode::Char('k')));
    tui.handle_key(plain(KeyCode::Char('h')));
    assert_eq!(tui, Tui { vertical_scroll: 1, horizontal_scroll: 2 });
}

#[test]
fn shift_moves_by_twenty() {
    let mut tui = Tui::default();
    tui.handle_key(shift(KeyCode::Down));
    assert_eq!(tui.vertical_scroll, 20);
    tui.handle_key(shift(KeyCode::Char('j')));
    assert_eq!(tui.vertical_scroll, 40);
    tui.handle_key(shift(KeyCode::Up));
    assert_eq!(tui.vertical_scroll, 20);
    tui.handle_key(shift(KeyCode::Right));
    tui.handle_key(shift(KeyCode::Char('l')));
    assert_eq!(tui.horizontal_scroll, 40);
    tui.handle_key(shift(KeyCode::Left));
    assert_eq!(tui.horizontal_scroll, 20);
    tui.handle_key(plain(KeyCode::Up));
    assert_eq!(tui.vertical_scroll, 19);
    tui.handle_key(shift(KeyCode::Up));
    assert_eq!(tui.vertical_scroll, 0);
}

#[test]
fn offsets_stop_at_the_largest_value() {
    let mut tui = Tui { vertical_scroll: u16::MAX - 5, horizontal_scroll: u16::MAX };
    tui.handle_key(shift(KeyCode::Down));
    assert_eq!(tui.vertical_scroll, u16::MAX);
    tui.handle_key(plain(KeyCode::Right));
    assert_eq!(tui.horizontal_scroll, u16::MAX);
    tui.handle_key(plain(KeyCode::Left));
    assert_eq!(tui.horizontal_scroll, u16::MAX - 1);
}

#[test]
fn offsets_are_not_held_to_the_text() {
    let mut tui = Tui::default();
    for _ in 0..1000 {
        tui.handle_key(shift(KeyCode::Down));
    }
    assert_eq!(tui.vertical_scroll, 20000);
}

#[test]
fn q_quits_and_leaves_the_offsets() {
    let mut tui = Tui { vertical_scroll: 7, horizontal_scroll: 9 };
    assert!(tui.handle_key(plain(KeyCode::Char('q'))));
    assert_eq!(tui, Tui { vertical_scroll: 7, horizontal_scroll: 9 });
}

#[test]
fn q_with_a_modifier_does_not_quit() {
    let mut tui = Tui::default();
    assert!(!tui.handle_key(shift(KeyCode::Char('q'))));
    assert!(!tui.handle_key(KeyEvent {
        code: KeyCode::Char('q'),
        modifiers: KeyModifiers::Other
    }));
    assert_eq!(tui, Tui::default());
}

#[test]
fn other_keys_and_modifiers_have_no_effect() {
    let mut tui = Tui { vertical_scroll: 4, horizontal_scroll: 4 };
    for key in [
        plain(KeyCode::Char('x')),
        plain(KeyCode::Char('J')),
        plain(KeyCode::Char('Q')),
        plain(KeyCode::Other),
        shift(KeyCode::Other),
        KeyEvent { code: KeyCode::Down, modifiers: KeyModifiers::Other },
        KeyEvent { code: KeyCode::Char('j'), modifiers: KeyModifiers::Other },
    ] {
        assert!(!tui.handle_key(key));
        assert_eq!(command(key), Command::Ignore);
    }
    assert_eq!(tui, Tui { vertical_scroll: 4, horizontal_scroll: 4 });
}

#[test]
fn commands_of_keys() {
    assert_eq!(STEP, 1);
    assert_eq!(PAGE, 20);
    assert_eq!(command(plain(KeyCode::Char('q'))), Command::Quit);
    assert_eq!(command(plain(KeyCode::Down)), Command::Scroll(Direction::Down, 1));
    assert_eq!(command(plain(KeyCode::Char('k'))), Command::Scroll(Direction::Up, 1));
    assert_eq!(command(shift(KeyCode::Left)), Command::Scroll(Direction::Left, 20));
    assert_eq!(command(shift(KeyCode::Char('l'))), Command::Scroll(Direction::Right, 20));
}

#[test]
fn apply_carries_out_a_command() {
    let mut tui = Tui { vertical_scroll: 10, horizontal_scroll: 10 };
    tui.apply(Command::Scroll(Direction::Up, 3));
    tui.apply(Command::Scroll(Direction::Right, 5));
    tui.apply(Command::Ignore);
    tui.apply(Command::Quit);
    assert_eq!(tui, Tui { vertical_scroll: 7, horizontal_scroll: 15 });
}

#[test]
fn run_keys_stops_at_the_first_quit() {
    let keys = vec![
        plain(KeyCode::Down),
        plain(KeyCode::Down),
        plain(KeyCode::Right),
        plain(KeyCode::Char('q')),
        plain(KeyCode::Down),
        plain(KeyCode::Down),
    ];
    let mut tui = Tui::default();
    assert!(tui.run_keys(&keys));
    assert_eq!(tui, Tui { vertical_scroll: 2, horizontal_scroll: 1 });
}

#[test]
fn run_keys_without_quit_handles_every_key() {
    let keys = vec![plain(KeyCode::Down), shift(KeyCode::Down), plain(KeyCode::Up)];
    let mut tui = Tui::default();
    assert!(!tui.run_keys(&keys));
    assert_eq!(tui, Tui { vertical_scroll: 20, horizontal_scroll: 0 });
    let mut other = Tui::default();
    assert!(!other.run_keys(&Vec::new()));
    assert_eq!(other, Tui::default());
}

#[test]
fn poll_timeout_is_what_is_left_of_the_tick() {
    assert_eq!(TICK_RATE_MS, 250);
    assert_eq!(poll_timeout(250, 0), 250);
    assert_eq!(poll_timeout(250, 100), 150);
    assert_eq!(poll_timeout(250, 249), 1);
    assert_eq!(poll_timeout(250, 250), 0);
    assert_eq!(poll_timeout(250, 10_000), 0);
}

#[test]
fn a_tick_has_passed_once_its_time_is_up() {
    assert!(!tick_elapsed(250, 0));
    assert!(!tick_elapsed(250, 249));
    assert!(tick_elapsed(250, 250));
    assert!(tick_elapsed(250, 251));
}

#[test]
fn a_showing_without_failures_restores_the_terminal() {
    let (session, taken) = run(&[true; 7]);
    assert_eq!(
        taken,
        vec![
            Step::EnableRawMode,
            Step::EnterAlternateScreen,
            Step::CreateTerminal,
            Step::RunPager,
            Step::DisableRawMode,
            Step::LeaveAlternateScreen,
            Step::ShowCursor,
        ]
    );
    assert!(!session.raw_mode);
    assert!(!session.alternate_screen);
    assert!(session.terminal);
    assert!(session.succeeded());
    assert!(!session.pager_failed);
}

#[test]
fn an_error_of_the_pager_still_restores_the_terminal() {
    let (session, taken) = run(&[true, true, true, false, true, true, true]);
    assert_eq!(taken.len(), 7);
    assert_eq!(taken[4], Step::DisableRawMode);
    assert_eq!(taken[5], Step::LeaveAlternateScreen);
    assert_eq!(taken[6], Step::ShowCursor);
    assert!(!session.raw_mode);
    assert!(!session.alternate_screen);
    assert!(session.pager_failed);
    assert!(session.succeeded());
}

#[test]
fn a_failure_to_enter_raw_mode_ends_the_showing() {
    let (session, taken) = run(&[false]);
    assert_eq!(taken, vec![Step::EnableRawMode]);
    assert!(!session.raw_mode);
    assert!(!session.alternate_screen);
    assert!(session.setup_failed);
    assert!(!session.succeeded());
}

#[test]
fn a_failure_to_enter_the_alternate_screen_undoes_raw_mode() {
    let (session, taken) = run(&[true, false, true]);
    assert_eq!(
        taken,
        vec![Step::EnableRawMode, Step::EnterAlternateScreen, Step::DisableRawMode]
    );
    assert!(!session.raw_mode);
    assert!(!session.alternate_screen);
    assert!(session.setup_failed);
    assert!(!session.restore_failed);
    assert!(!session.succeeded());
}

#[test]
fn a_failure_to_create_the_terminal_undoes_both_modes() {
    let (session, taken) = run(&[true, true, false, true, true]);
    assert_eq!(
        taken,
        vec![
            Step::EnableRawMode,
            Step::EnterAlternateScreen,
            Step::CreateTerminal,
            Step::DisableRawMode,
            Step::LeaveAlternateScreen,
        ]
    );
    assert!(!session.raw_mode);
    assert!(!session.alternate_screen);
    assert!(!session.terminal);
    assert!(session.setup_failed);
    assert!(!session.restore_failed);
    assert!(!session.pager_failed);
    assert!(!session.succeeded());
}

#[test]
fn a_screen_that_cannot_be_left_is_recorded_as_up() {
    let (session, taken) = run(&[true, true, false, true, false]);
    assert_eq!(taken.len(), 5);
    assert_eq!(taken[4], Step::LeaveAlternateScreen);
    assert!(!session.raw_mode);
    assert!(session.alternate_screen);
    assert!(session.restore_failed);
    assert!(!session.succeeded());
}

#[test]
fn a_failed_restoring_step_does_not_stop_the_others() {
    let (session, taken) = run(&[true, true, true, true, false, true, true]);
    assert_eq!(taken.len(), 7);
    assert_eq!(taken[5], Step::LeaveAlternateScreen);
    assert_eq!(taken[6], Step::ShowCursor);
    assert!(session.raw_mode);
    assert!(!session.alternate_screen);
    assert!(session.restore_failed);
    assert!(!session.succeeded());
}

#[test]
fn a_finished_showing_takes_no_further_step() {
    let (mut session, _) = run(&[true; 7]);
    let before = session;
    session.step_done(true);
    session.step_done(false);
    assert_eq!(session, before);
    assert_eq!(session.next_step(), None);
}
