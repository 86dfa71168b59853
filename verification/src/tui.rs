//! Scroll state of the full-screen pager and its reaction to key presses.
//!
//! The pager itself draws and waits for input; everything it decides between
//! two redraws is computed here from plain values.

use vstd::prelude::*;

verus! {

/// Lines or columns moved by a plain key press.
pub const STEP: u16 = 1;

/// Lines or columns moved by a key press with shift held.
pub const PAGE: u16 = 20;

/// Longest wait for input between two redraws, in milliseconds.
pub const TICK_RATE_MS: u64 = 250;

/// The key that was pressed, as far as the pager tells keys apart.
#[derive(Clone, Copy, Debug, PartialEq, Eq)]
pub enum KeyCode {
    Char(char),
    Up,
    Down,
    Left,
    Right,
    Other,
}

/// The modifier keys held with a key press.
#[derive(Clone, Copy, Debug, PartialEq, Eq)]
pub enum KeyModifiers {
    /// No modifier at all.
    Plain,
    /// Shift and nothing else.
    Shift,
    /// Any other combination.
    Other,
}

/// One key press.
#[derive(Clone, Copy, Debug, PartialEq, Eq)]
pub struct KeyEvent {
    pub code: KeyCode,
    pub modifiers: KeyModifiers,
}

/// A direction of scrolling.
#[derive(Clone, Copy, Debug, PartialEq, Eq)]
pub enum Direction {
    Up,
    Down,
    Left,
    Right,
}

/// What a key press asks of the pager.
#[derive(Clone, Copy, Debug, PartialEq, Eq)]
pub enum Command {
    /// Leave the pager.
    Quit,
    /// Move the view by the given amount.
    Scroll(Direction, u16),
    /// The key has no meaning.
    Ignore,
}

/// The direction a key stands for, if it is a scrolling key.
pub open spec fn spec_direction(code: KeyCode) -> Option<Direction> {
    match code {
        KeyCode::Char(c) => if c == 'j' {
            Some(Direction::Down)
        } else if c == 'k' {
            Some(Direction::Up)
        } else if c == 'h' {
            Some(Direction::Left)
        } else if c == 'l' {
            Some(Direction::Right)
        } else {
            None
        },
        KeyCode::Down => Some(Direction::Down),
        KeyCode::Up => Some(Direction::Up),
        KeyCode::Left => Some(Direction::Left),
        KeyCode::Right => Some(Direction::Right),
        KeyCode::Other => None,
    }
}

/// The command of a key press: `q` alone quits, a scrolling key moves by
/// [`STEP`] alone and by [`PAGE`] with shift, everything else is ignored.
pub open spec fn spec_command(key: KeyEvent) -> Command {
    match key.modifiers {
        KeyModifiers::Plain => if key.code == KeyCode::Char('q') {
            Command::Quit
        } else {
            match spec_direction(key.code) {
                Some(d) => Command::Scroll(d, STEP),
                None => Command::Ignore,
            }
        },
        KeyModifiers::Shift => match spec_direction(key.code) {
            Some(d) => Command::Scroll(d, PAGE),
            None => Command::Ignore,
        },
        KeyModifiers::Other => Command::Ignore,
    }
}

/// `offset + amount`, held at the largest offset.
pub open spec fn spec_forward(offset: u16, amount: u16) -> u16 {
    if offset + amount > u16::MAX {
        u16::MAX
    } else {
        (offset + amount) as u16
    }
}

/// `offset - amount`, held at zero.
pub open spec fn spec_backward(offset: u16, amount: u16) -> u16 {
    if offset < amount {
        0
    } else {
        (offset - amount) as u16
    }
}

/// Scrolling back at the top or at the left margin changes nothing: an
/// offset never goes below zero.
pub proof fn lemma_backward_stops_at_zero(amount: u16)
    ensures
        spec_backward(0, amount) == 0,
{
}

fn direction(code: KeyCode) -> (d: Option<Direction>)
    ensures
        d == spec_direction(code),
{
    match code {
        KeyCode::Char(c) => {
            if c == 'j' {
                Some(Direction::Down)
            } else if c == 'k' {
                Some(Direction::Up)
            } else if c == 'h' {
                Some(Direction::Left)
            } else if c == 'l' {
                Some(Direction::Right)
            } else {
                None
            }
        },
        KeyCode::Down => Some(Direction::Down),
        KeyCode::Up => Some(Direction::Up),
        KeyCode::Left => Some(Direction::Left),
        KeyCode::Right => Some(Direction::Right),
        KeyCode::Other => None,
    }
}

/// Reads a key press as a command.
pub fn command(key: KeyEvent) -> (c: Command)
    ensures
        c == spec_command(key),
{
    match key.modifiers {
        KeyModifiers::Plain => {
            let quit = match key.code {
                KeyCode::Char(c) => c == 'q',
                _ => false,
            };
            if quit {
                Command::Quit
            } else {
                match direction(key.code) {
                    Some(d) => Command::Scroll(d, STEP),
                    None => Command::Ignore,
                }
            }
        },
        KeyModifiers::Shift => match direction(key.code) {
            Some(d) => Command::Scroll(d, PAGE),
            None => Command::Ignore,
        },
        KeyModifiers::Other => Command::Ignore,
    }
}

/// The two scroll offsets of the pager.
#[derive(Clone, Copy, Debug, PartialEq, Eq)]
pub struct Tui {
    pub vertical_scroll: u16,
    pub horizontal_scroll: u16,
}

impl Default for Tui {
    fn default() -> (t: Self)
        ensures
            t == Tui::spec_initial(),
    {
        Tui { vertical_scroll: 0, horizontal_scroll: 0 }
    }
}

impl Tui {
    /// Both offsets at zero: the top left corner of the text.
    pub open spec fn spec_initial() -> Tui {
        Tui { vertical_scroll: 0, horizontal_scroll: 0 }
    }

    /// The offsets after a command. Offsets stop at zero and at the largest
    /// offset; the length of the text plays no part.
    pub open spec fn spec_apply(self, c: Command) -> Tui {
        match c {
            Command::Scroll(Direction::Down, n) => Tui {
                vertical_scroll: spec_forward(self.vertical_scroll, n),
                ..self
            },
            Command::Scroll(Direction::Up, n) => Tui {
                vertical_scroll: spec_backward(self.vertical_scroll, n),
                ..self
            },
            Command::Scroll(Direction::Right, n) => Tui {
                horizontal_scroll: spec_forward(self.horizontal_scroll, n),
                ..self
            },
            Command::Scroll(Direction::Left, n) => Tui {
                horizontal_scroll: spec_backward(self.horizontal_scroll, n),
                ..self
            },
            Command::Quit => self,
            Command::Ignore => self,
        }
    }

    /// The offsets after a run of key presses, read up to the first key that
    /// quits.
    pub open spec fn spec_replay(self, keys: Seq<KeyEvent>) -> Tui
        decreases keys.len(),
    {
        if keys.len() == 0 || spec_command(keys[0]) is Quit {
            self
        } else {
            self.spec_apply(spec_command(keys[0])).spec_replay(keys.skip(1))
        }
    }

    /// Whether a run of key presses holds one that quits.
    pub open spec fn spec_quits(keys: Seq<KeyEvent>) -> bool {
        exists|i: int| 0 <= i < keys.len() && spec_command(#[trigger] keys[i]) is Quit
    }

    /// Carries out one command on the offsets.
    pub fn apply(&mut self, c: Command)
        ensures
            *final(self) == old(self).spec_apply(c),
    {
        match c {
            Command::Scroll(Direction::Down, n) => {
                self.vertical_scroll = self.vertical_scroll.saturating_add(n);
            },
            Command::Scroll(Direction::Up, n) => {
                self.vertical_scroll = self.vertical_scroll.saturating_sub(n);
            },
            Command::Scroll(Direction::Right, n) => {
                self.horizontal_scroll = self.horizontal_scroll.saturating_add(n);
            },
            Command::Scroll(Direction::Left, n) => {
                self.horizontal_scroll = self.horizontal_scroll.saturating_sub(n);
            },
            Command::Quit => {},
            Command::Ignore => {},
        }
    }

    /// Handles key presses in turn up to the first one that quits; the result
    /// says whether one did.
    pub fn run_keys(&mut self, keys: &Vec<KeyEvent>) -> (quit: bool)
        ensures
            quit == Tui::spec_quits(keys@),
            *final(self) == old(self).spec_replay(keys@),
    {
        let mut i: usize = 0;
        assert(keys@.skip(0) =~= keys@);
        while i < keys.len()
            invariant
                i <= keys.len(),
                old(self).spec_replay(keys@) == self.spec_replay(keys@.skip(i as int)),
                forall|j: int| 0 <= j < i ==> !(spec_command(#[trigger] keys@[j]) is Quit),
            decreases keys.len() - i,
        {
            let ghost rest = keys@.skip(i as int);
            assert(rest[0] == keys@[i as int]);
            assert(rest.skip(1) =~= keys@.skip(i as int + 1));
            if self.handle_key(keys[i]) {
                return true;
            }
            i += 1;
        }
        false
    }

    /// Handles one key press; the result says whether the pager is to quit.
    pub fn handle_key(&mut self, key: KeyEvent) -> (quit: bool)
        ensures
            quit == (spec_command(key) is Quit),
            *final(self) == old(self).spec_apply(spec_command(key)),
    {
        let c = command(key);
        self.apply(c);
        match c {
            Command::Quit => true,
            _ => false,
        }
    }
}

/// A run of presses of one key.
pub open spec fn spec_presses(key: KeyEvent, n: nat) -> Seq<KeyEvent> {
    Seq::new(n, |i: int| key)
}

/// The plain press of an arrow key or of one of the other keys.
pub open spec fn spec_plain(code: KeyCode) -> KeyEvent {
    KeyEvent { code, modifiers: KeyModifiers::Plain }
}

/// Keys handled one run after the other are handled as one run, as long as
/// the first run holds no key that quits.
pub proof fn lemma_replay_in_two_runs(start: Tui, first: Seq<KeyEvent>, second: Seq<KeyEvent>)
    requires
        !Tui::spec_quits(first),
    ensures
        start.spec_replay(first + second) == start.spec_replay(first).spec_replay(second),
    decreases first.len(),
{
    if first.len() == 0 {
        assert(first + second =~= second);
    } else {
        let rest = first.skip(1);
        assert(!(spec_command(first[0]) is Quit));
        assert(!Tui::spec_quits(rest)) by {
            if Tui::spec_quits(rest) {
                let i = choose|i: int| 0 <= i < rest.len() && spec_command(#[trigger] rest[i]) is Quit;
                assert(rest[i] == first[i + 1]);
            }
        }
        assert((first + second)[0] == first[0]);
        assert((first + second).skip(1) =~= rest + second);
        lemma_replay_in_two_runs(start.spec_apply(spec_command(first[0])), rest, second);
    }
}

/// A run of presses of one scrolling key never quits.
pub proof fn lemma_presses_do_not_quit(key: KeyEvent, n: nat)
    requires
        !(spec_command(key) is Quit),
    ensures
        !Tui::spec_quits(spec_presses(key, n)),
{
}

/// Pressing Down `n` times moves the view down by `n` lines, as far as the
/// largest offset allows.
pub proof fn lemma_presses_of_down(start: Tui, n: nat)
    ensures
        start.spec_replay(spec_presses(spec_plain(KeyCode::Down), n)) == (Tui {
            vertical_scroll: if start.vertical_scroll + n > u16::MAX {
                u16::MAX
            } else {
                (start.vertical_scroll + n) as u16
            },
            ..start
        }),
    decreases n,
{
    let key = spec_plain(KeyCode::Down);
    if n > 0 {
        assert(spec_presses(key, n)[0] == key);
        assert(spec_presses(key, n).skip(1) =~= spec_presses(key, (n - 1) as nat));
        lemma_presses_of_down(start.spec_apply(spec_command(key)), (n - 1) as nat);
    }
}

/// Pressing Up `n` times moves the view up by `n` lines, and no further than
/// the top.
pub proof fn lemma_presses_of_up(start: Tui, n: nat)
    ensures
        start.spec_replay(spec_presses(spec_plain(KeyCode::Up), n)) == (Tui {
            vertical_scroll: if start.vertical_scroll < n {
                0
            } else {
                (start.vertical_scroll - n) as u16
            },
            ..start
        }),
    decreases n,
{
    let key = spec_plain(KeyCode::Up);
    if n > 0 {
        assert(spec_presses(key, n)[0] == key);
        assert(spec_presses(key, n).skip(1) =~= spec_presses(key, (n - 1) as nat));
        lemma_presses_of_up(start.spec_apply(spec_command(key)), (n - 1) as nat);
    }
}

/// From the top left corner, `down` presses of Down followed by `up` presses
/// of Up leave the view `down - up` lines below the top, and at the top
/// where there were at least as many presses of Up. Five down and two up
/// make three; one more up at the top stays at the top.
pub proof fn lemma_down_then_up(down: nat, up: nat)
    requires
        down <= u16::MAX,
    ensures
        Tui::spec_initial().spec_replay(
            spec_presses(spec_plain(KeyCode::Down), down) + spec_presses(
                spec_plain(KeyCode::Up),
                up,
            ),
        ) == (Tui {
            vertical_scroll: if down < up {
                0
            } else {
                (down - up) as u16
            },
            horizontal_scroll: 0,
        }),
{
    let start = Tui::spec_initial();
    let downs = spec_presses(spec_plain(KeyCode::Down), down);
    lemma_presses_do_not_quit(spec_plain(KeyCode::Down), down);
    lemma_replay_in_two_runs(start, downs, spec_presses(spec_plain(KeyCode::Up), up));
    lemma_presses_of_down(start, down);
    lemma_presses_of_up(start.spec_replay(downs), up);
}

/// How long the pager may wait for input: what is left of the tick, nothing
/// once the tick has passed.
pub open spec fn spec_poll_timeout(tick_rate: u64, elapsed: u64) -> u64 {
    if elapsed >= tick_rate {
        0
    } else {
        (tick_rate - elapsed) as u64
    }
}

/// The wait for input that keeps the pager within one tick, given the
/// length of a tick and the time since the tick began, both in the same
/// unit.
pub fn poll_timeout(tick_rate: u64, elapsed: u64) -> (timeout: u64)
    ensures
        timeout == spec_poll_timeout(tick_rate, elapsed),
        timeout <= tick_rate,
{
    tick_rate.saturating_sub(elapsed)
}

/// Whether a new tick begins, given the time since the last one began.
pub fn tick_elapsed(tick_rate: u64, elapsed: u64) -> (due: bool)
    ensures
        due == (elapsed >= tick_rate),
{
    elapsed >= tick_rate
}

/// One thing done to the terminal in the course of showing a text.
#[derive(Clone, Copy, Debug, PartialEq, Eq, Hash, Structural)]
pub enum Step {
    /// Switch the terminal to raw input.
    EnableRawMode,
    /// Enter the alternate screen and capture the mouse.
    EnterAlternateScreen,
    /// Set up the drawing surface on the alternate screen.
    CreateTerminal,
    /// Draw the text and handle keys until one quits.
    RunPager,
    /// Switch raw input off again.
    DisableRawMode,
    /// Leave the alternate screen and let go of the mouse.
    LeaveAlternateScreen,
    /// Bring the cursor back.
    ShowCursor,
}

/// The course of one showing of a text on the terminal: what is done next,
/// and in which mode the terminal is, as far as the outcomes of the steps
/// tell. A step that fails leaves the terminal as it was.
#[derive(Clone, Copy, Debug, PartialEq, Eq, Structural)]
pub struct TerminalSession {
    /// The step to take next; `None` when the showing is over.
    pub next: Option<Step>,
    /// Raw input is on.
    pub raw_mode: bool,
    /// The alternate screen is up.
    pub alternate_screen: bool,
    /// The drawing surface is there.
    pub terminal: bool,
    /// A step that prepares the terminal has failed.
    pub setup_failed: bool,
    /// The pager has ended with an error.
    pub pager_failed: bool,
    /// A step that restores the terminal has failed.
    pub restore_failed: bool,
}

impl TerminalSession {
    /// The state before anything is done: the terminal is in the mode in
    /// which it was found.
    pub open spec fn spec_initial() -> TerminalSession {
        TerminalSession {
            next: Some(Step::EnableRawMode),
            raw_mode: false,
            alternate_screen: false,
            terminal: false,
            setup_failed: false,
            pager_failed: false,
            restore_failed: false,
        }
    }

    /// The state after the next step was taken with the given outcome.
    ///
    /// Preparing stops at the first failure. Whatever was switched on is
    /// switched off again afterwards, whether the steps in between succeeded
    /// or not, and every restoring step is tried even where another one
    /// fails. The cursor is brought back through the drawing surface, so
    /// only where there is one.
    pub open spec fn spec_after(self, ok: bool) -> TerminalSession {
        match self.next {
            None => self,
            Some(Step::EnableRawMode) => if ok {
                TerminalSession { next: Some(Step::EnterAlternateScreen), raw_mode: true, ..self }
            } else {
                TerminalSession { next: None, setup_failed: true, ..self }
            },
            Some(Step::EnterAlternateScreen) => if ok {
                TerminalSession { next: Some(Step::CreateTerminal), alternate_screen: true, ..self }
            } else {
                TerminalSession { next: Some(Step::DisableRawMode), setup_failed: true, ..self }
            },
            Some(Step::CreateTerminal) => if ok {
                TerminalSession { next: Some(Step::RunPager), terminal: true, ..self }
            } else {
                TerminalSession { next: Some(Step::DisableRawMode), setup_failed: true, ..self }
            },
            Some(Step::RunPager) => TerminalSession {
                next: Some(Step::DisableRawMode),
                pager_failed: !ok,
                ..self
            },
            Some(Step::DisableRawMode) => TerminalSession {
                next: if self.alternate_screen {
                    Some(Step::LeaveAlternateScreen)
                } else {
                    None
                },
                raw_mode: !ok,
                restore_failed: self.restore_failed || !ok,
                ..self
            },
            Some(Step::LeaveAlternateScreen) => TerminalSession {
                next: if self.terminal {
                    Some(Step::ShowCursor)
                } else {
                    None
                },
                alternate_screen: !ok,
                restore_failed: self.restore_failed || !ok,
                ..self
            },
            Some(Step::ShowCursor) => TerminalSession {
                next: None,
                restore_failed: self.restore_failed || !ok,
                ..self
            },
        }
    }

    /// The state after a run of steps with the given outcomes.
    pub open spec fn spec_after_all(self, outcomes: Seq<bool>) -> TerminalSession
        decreases outcomes.len(),
    {
        if outcomes.len() == 0 {
            self
        } else {
            self.spec_after_all(outcomes.drop_last()).spec_after(outcomes.last())
        }
    }

    /// Whether nothing has failed so far.
    pub open spec fn spec_clean(self) -> bool {
        !self.setup_failed && !self.pager_failed && !self.restore_failed
    }

    /// What holds of every state that a showing passes through: the modes of
    /// the terminal go with the step that is next, and a mode that is still
    /// on when its restoring step is past was refused by the terminal.
    pub open spec fn spec_wf(self) -> bool {
        match self.next {
            Some(Step::EnableRawMode) => !self.raw_mode && !self.alternate_screen
                && !self.terminal && self.spec_clean(),
            Some(Step::EnterAlternateScreen) => self.raw_mode && !self.alternate_screen
                && !self.terminal && self.spec_clean(),
            Some(Step::CreateTerminal) => self.raw_mode && self.alternate_screen && !self.terminal
                && self.spec_clean(),
            Some(Step::RunPager) => self.raw_mode && self.alternate_screen && self.terminal
                && self.spec_clean(),
            Some(Step::DisableRawMode) => {
                &&& self.raw_mode
                &&& !self.restore_failed
                &&& self.terminal ==> self.alternate_screen
                &&& self.setup_failed <==> !self.terminal
                &&& self.pager_failed ==> self.terminal
            },
            Some(Step::LeaveAlternateScreen) => {
                &&& self.alternate_screen
                &&& self.raw_mode ==> self.restore_failed
                &&& self.setup_failed <==> !self.terminal
                &&& self.pager_failed ==> self.terminal
            },
            Some(Step::ShowCursor) => {
                &&& self.terminal
                &&& !self.setup_failed
                &&& self.raw_mode || self.alternate_screen ==> self.restore_failed
            },
            None => {
                &&& self.raw_mode || self.alternate_screen ==> self.restore_failed
                &&& self.pager_failed ==> !self.setup_failed
            },
        }
    }

    /// The number of steps that are still to come at most.
    pub open spec fn spec_steps_left(self) -> nat {
        match self.next {
            Some(Step::EnableRawMode) => 7,
            Some(Step::EnterAlternateScreen) => 6,
            Some(Step::CreateTerminal) => 5,
            Some(Step::RunPager) => 4,
            Some(Step::DisableRawMode) => 3,
            Some(Step::LeaveAlternateScreen) => 2,
            Some(Step::ShowCursor) => 1,
            None => 0,
        }
    }

    /// Whether the showing went through without a failure of the terminal.
    /// An error of the pager is reported, but is no failure of the showing.
    pub open spec fn spec_succeeded(self) -> bool {
        self.next is None && !self.setup_failed && !self.restore_failed
    }

    /// The state before anything is done.
    pub fn new() -> (session: TerminalSession)
        ensures
            session == TerminalSession::spec_initial(),
            session.spec_wf(),
    {
        TerminalSession {
            next: Some(Step::EnableRawMode),
            raw_mode: false,
            alternate_screen: false,
            terminal: false,
            setup_failed: false,
            pager_failed: false,
            restore_failed: false,
        }
    }

    /// The step to take next, or `None` when the showing is over.
    pub fn next_step(&self) -> (step: Option<Step>)
        ensures
            step == self.next,
    {
        self.next
    }

    /// Takes note of the outcome of the step that was next.
    pub fn step_done(&mut self, ok: bool)
        ensures
            *final(self) == old(self).spec_after(ok),
            old(self).spec_wf() ==> final(self).spec_wf(),
            old(self).next is Some ==> final(self).spec_steps_left() < old(self).spec_steps_left(),
    {
        match self.next {
            None => {},
            Some(Step::EnableRawMode) => {
                if ok {
                    self.next = Some(Step::EnterAlternateScreen);
                    self.raw_mode = true;
                } else {
                    self.next = None;
                    self.setup_failed = true;
                }
            },
            Some(Step::EnterAlternateScreen) => {
                if ok {
                    self.next = Some(Step::CreateTerminal);
                    self.alternate_screen = true;
                } else {
                    self.next = Some(Step::DisableRawMode);
                    self.setup_failed = true;
                }
            },
            Some(Step::CreateTerminal) => {
                if ok {
                    self.next = Some(Step::RunPager);
                    self.terminal = true;
                } else {
                    self.next = Some(Step::DisableRawMode);
                    self.setup_failed = true;
                }
            },
            Some(Step::RunPager) => {
                self.next = Some(Step::DisableRawMode);
                self.pager_failed = !ok;
            },
            Some(Step::DisableRawMode) => {
                self.next = if self.alternate_screen {
                    Some(Step::LeaveAlternateScreen)
                } else {
                    None
                };
                self.raw_mode = !ok;
                self.restore_failed = self.restore_failed || !ok;
            },
            Some(Step::LeaveAlternateScreen) => {
                self.next = if self.terminal {
                    Some(Step::ShowCursor)
                } else {
                    None
                };
                self.alternate_screen = !ok;
                self.restore_failed = self.restore_failed || !ok;
            },
            Some(Step::ShowCursor) => {
                self.next = None;
                self.restore_failed = self.restore_failed || !ok;
            },
        }
    }

    /// Whether the showing went through without a failure of the terminal.
    pub fn succeeded(&self) -> (ok: bool)
        ensures
            ok == self.spec_succeeded(),
    {
        match self.next {
            None => !self.setup_failed && !self.restore_failed,
            Some(_) => false,
        }
    }
}

/// Every state of a showing is well formed, whatever the outcomes of its
/// steps.
pub proof fn lemma_session_stays_well_formed(outcomes: Seq<bool>)
    ensures
        TerminalSession::spec_initial().spec_after_all(outcomes).spec_wf(),
    decreases outcomes.len(),
{
    if outcomes.len() > 0 {
        lemma_session_stays_well_formed(outcomes.drop_last());
    }
}

/// When a showing is over, the terminal is back in the mode in which it was
/// found, with raw input off and the alternate screen left, unless the
/// terminal itself refused a restoring step. This holds however the showing
/// went: with the pager quit by a key or ended by an error, and also where
/// preparing the terminal failed halfway.
pub proof fn lemma_terminal_is_restored(outcomes: Seq<bool>)
    requires
        TerminalSession::spec_initial().spec_after_all(outcomes).next is None,
    ensures
        !TerminalSession::spec_initial().spec_after_all(outcomes).restore_failed ==> {
            &&& !TerminalSession::spec_initial().spec_after_all(outcomes).raw_mode
            &&& !TerminalSession::spec_initial().spec_after_all(outcomes).alternate_screen
        },
{
    lemma_session_stays_well_formed(outcomes);
}

} // verus!
