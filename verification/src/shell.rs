//! The shell around the timer, without its terminal: which key means what,
//! which keys are worth showing in which state, and the text of the clock.
//!
//! Whoever owns the terminal hands in what it read as a [`ShellEvent`] and
//! takes back plain text to draw.

use crate::span::TimeSpan;
use crate::span::NANOS_PER_SEC;
use crate::timer::accepts;
use crate::timer::Timer;
use crate::timer::TimerEvent;
use crate::timer::TimerState;
use crate::timer::TimerView;
use crate::visuals::clock_digits;
use crate::visuals::draw_time;
use crate::visuals::time_row;
use crate::visuals::LINE_WIDTH;
use crate::visuals::ROWS;
use vstd::prelude::*;

verus! {

/// The title shown on the frame of the panel.
pub const TITLE: &'static str = " Tomate ";

/// How long the shell waits for input before it draws again, in
/// milliseconds.
pub const POLL_MILLIS: u64 = 100;

/// One second short of a hundred minutes, the most that two digits of
/// minutes can show, as a count of whole seconds.
pub const MAX_SHOWN_SECS: u64 = 5999;

/// The key of a key stroke, as far as the shell tells keys apart.
#[derive(Clone, Copy, Debug, PartialEq, Eq, Structural)]
pub enum Key {
    /// A key that stands for a character.
    Char(char),
    /// Any other key.
    Other,
}

/// What happened to the key.
#[derive(Clone, Copy, Debug, PartialEq, Eq, Structural)]
pub enum KeyKind {
    Press,
    Repeat,
    Release,
}

/// A key stroke as the terminal reports it.
#[derive(Clone, Copy, Debug, PartialEq, Eq, Structural)]
pub struct KeyStroke {
    pub key: Key,
    pub kind: KeyKind,
}

/// What the terminal reports to the shell.
#[derive(Clone, Copy, Debug, PartialEq, Eq, Structural)]
pub enum ShellEvent {
    /// A key stroke.
    Key(KeyStroke),
    /// Anything else: the mouse, a resize, focus.
    Other,
}

/// What a key asks of the shell.
#[derive(Clone, Copy, Debug, PartialEq, Eq, Structural)]
pub enum Command {
    /// Leave the shell. The timer never sees it.
    Quit,
    /// Hand an event to the timer.
    Timer(TimerEvent),
}

impl Command {
    /// The character of the key that gives this command.
    pub open spec fn key_char(self) -> char {
        match self {
            Command::Quit => 'q',
            Command::Timer(TimerEvent::StartWork) => 'w',
            Command::Timer(TimerEvent::StartBreak) => 'b',
            Command::Timer(TimerEvent::Pause) => 'p',
            Command::Timer(TimerEvent::Resume) => 'r',
            Command::Timer(TimerEvent::Reset) => 'x',
        }
    }

    /// The words that name this command in the hints.
    pub open spec fn label_text(self) -> Seq<char> {
        match self {
            Command::Quit => " Exit:"@,
            Command::Timer(TimerEvent::StartWork) => " Start Work:"@,
            Command::Timer(TimerEvent::StartBreak) => " Start Break:"@,
            Command::Timer(TimerEvent::Pause) => " Pause:"@,
            Command::Timer(TimerEvent::Resume) => " Resume:"@,
            Command::Timer(TimerEvent::Reset) => " Reset:"@,
        }
    }

    /// The character of the key that gives this command.
    pub fn key(self) -> (key: char)
        ensures
            key == self.key_char(),
            command_of(Key::Char(key)) == Some(self),
    {
        match self {
            Command::Quit => 'q',
            Command::Timer(TimerEvent::StartWork) => 'w',
            Command::Timer(TimerEvent::StartBreak) => 'b',
            Command::Timer(TimerEvent::Pause) => 'p',
            Command::Timer(TimerEvent::Resume) => 'r',
            Command::Timer(TimerEvent::Reset) => 'x',
        }
    }

    /// The words that name this command in the hints.
    pub fn label(self) -> (label: &'static str)
        ensures
            label@ == self.label_text(),
    {
        match self {
            Command::Quit => " Exit:",
            Command::Timer(TimerEvent::StartWork) => " Start Work:",
            Command::Timer(TimerEvent::StartBreak) => " Start Break:",
            Command::Timer(TimerEvent::Pause) => " Pause:",
            Command::Timer(TimerEvent::Resume) => " Resume:",
            Command::Timer(TimerEvent::Reset) => " Reset:",
        }
    }

    /// The key as the hints show it: its character between angle brackets.
    pub fn key_hint(self) -> (hint: &'static str)
        ensures
            hint@ == seq!['<', self.key_char(), '>'],
    {
        proof {
            reveal_strlit("<q>");
            reveal_strlit("<w>");
            reveal_strlit("<b>");
            reveal_strlit("<p>");
            reveal_strlit("<r>");
            reveal_strlit("<x>");
        }
        let hint: &'static str = match self {
            Command::Quit => "<q>",
            Command::Timer(TimerEvent::StartWork) => "<w>",
            Command::Timer(TimerEvent::StartBreak) => "<b>",
            Command::Timer(TimerEvent::Pause) => "<p>",
            Command::Timer(TimerEvent::Resume) => "<r>",
            Command::Timer(TimerEvent::Reset) => "<x>",
        };
        assert(hint@ =~= seq!['<', self.key_char(), '>']);
        hint
    }
}

/// The command that `key` gives, if it gives any.
pub open spec fn command_of(key: Key) -> Option<Command> {
    match key {
        Key::Char('q') => Some(Command::Quit),
        Key::Char('w') => Some(Command::Timer(TimerEvent::StartWork)),
        Key::Char('b') => Some(Command::Timer(TimerEvent::StartBreak)),
        Key::Char('p') => Some(Command::Timer(TimerEvent::Pause)),
        Key::Char('r') => Some(Command::Timer(TimerEvent::Resume)),
        Key::Char('x') => Some(Command::Timer(TimerEvent::Reset)),
        _ => None,
    }
}

/// The command that `event` gives: that of its key where a key was pressed,
/// none for a key held or let go and for everything else.
pub open spec fn command_of_event(event: ShellEvent) -> Option<Command> {
    match event {
        ShellEvent::Key(stroke) => if stroke.kind is Press {
            command_of(stroke.key)
        } else {
            None
        },
        ShellEvent::Other => None,
    }
}

/// The commands worth showing in `state`, in the order of the hints: those
/// that the timer accepts there, then the way out.
pub open spec fn offered(state: TimerState) -> Seq<Command> {
    match state {
        TimerState::Idle => seq![
            Command::Timer(TimerEvent::StartWork),
            Command::Timer(TimerEvent::StartBreak),
            Command::Quit,
        ],
        TimerState::Running => seq![Command::Timer(TimerEvent::Pause), Command::Quit],
        TimerState::Paused => seq![
            Command::Timer(TimerEvent::Resume),
            Command::Timer(TimerEvent::Reset),
            Command::Quit,
        ],
        TimerState::Completed => seq![Command::Timer(TimerEvent::Reset), Command::Quit],
    }
}

/// The command that `key` gives, if it gives any.
pub fn command_for_key(key: Key) -> (command: Option<Command>)
    ensures
        command == command_of(key),
{
    match key {
        Key::Char('q') => Some(Command::Quit),
        Key::Char('w') => Some(Command::Timer(TimerEvent::StartWork)),
        Key::Char('b') => Some(Command::Timer(TimerEvent::StartBreak)),
        Key::Char('p') => Some(Command::Timer(TimerEvent::Pause)),
        Key::Char('r') => Some(Command::Timer(TimerEvent::Resume)),
        Key::Char('x') => Some(Command::Timer(TimerEvent::Reset)),
        _ => None,
    }
}

/// The hints show a timer event exactly where the timer accepts it, and the
/// way out everywhere.
pub proof fn lemma_hints_match_timer(state: TimerState, event: TimerEvent)
    ensures
        offered(state).contains(Command::Timer(event)) <==> accepts(state, event),
        offered(state).contains(Command::Quit),
{
    let hints = offered(state);
    assert(hints[hints.len() - 1] == Command::Quit);
    if accepts(state, event) {
        assert(hints[0] == Command::Timer(event) || hints[1] == Command::Timer(event));
    }
}

/// Every command has a key of its own: the key of a command gives that
/// command back, and a key that gives a command is that command's key.
pub proof fn lemma_keys_and_commands(command: Command, key: Key)
    ensures
        command_of(Key::Char(command.key_char())) == Some(command),
        command_of(key) == Some(command) ==> key == Key::Char(command.key_char()),
{
}

/// The shell as a mathematical value.
pub ghost struct AppView {
    /// Whether the shell was asked to leave.
    pub exit: bool,
    /// The timer.
    pub timer: TimerView,
}

impl AppView {
    /// The shell after `command` arrived at the clock reading `now`.
    pub open spec fn apply(self, command: Option<Command>, now: nat) -> AppView {
        match command {
            Some(Command::Quit) => AppView { exit: true, timer: self.timer },
            Some(Command::Timer(event)) => AppView {
                exit: self.exit,
                timer: self.timer.step(event, now),
            },
            None => self,
        }
    }
}

/// Line `row` of the clock face that shows `nanos` nanoseconds as minutes
/// and seconds; what is left of a second is not shown.
pub open spec fn face_row(nanos: nat, row: int) -> Seq<char> {
    let digits = clock_digits((nanos / (NANOS_PER_SEC as nat)) as int);
    time_row(digits.0, digits.1, digits.2, digits.3, row)
}

/// The state of the shell: a timer, and whether it is time to leave.
#[derive(Debug)]
pub struct App {
    exit: bool,
    timer: Timer,
}

impl View for App {
    type V = AppView;

    closed spec fn view(&self) -> AppView {
        AppView { exit: self.exit, timer: self.timer@ }
    }
}

impl App {
    /// The latest reading of the clock of the shell's timer.
    pub closed spec fn clock_reading(&self) -> nat {
        self.timer.clock_reading()
    }

    /// A shell that has not been asked to leave, with a new timer.
    pub fn new() -> (app: App)
        ensures
            app@ == (AppView { exit: false, timer: TimerView::initial() }),
            app.clock_reading() == 0,
    {
        App { exit: false, timer: Timer::new() }
    }

    /// Whether the shell was asked to leave.
    pub fn should_exit(&self) -> (exit: bool)
        ensures
            exit == self@.exit,
    {
        self.exit
    }

    /// Where the timer stands.
    pub fn timer_state(&self) -> (state: TimerState)
        ensures
            state == self@.timer.state,
    {
        self.timer.state()
    }

    /// Takes what the terminal reported. Only a pressed key can do anything.
    pub fn handle_event(&mut self, event: ShellEvent)
        ensures
            old(self).clock_reading() <= final(self).clock_reading(),
            final(self)@ == old(self)@.apply(command_of_event(event), final(self).clock_reading()),
    {
        match event {
            ShellEvent::Key(stroke) => {
                match stroke.kind {
                    KeyKind::Press => {
                        self.handle_key_event(stroke);
                    },
                    _ => {},
                }
            },
            ShellEvent::Other => {},
        }
    }

    /// Does what the key of `stroke` asks: leaves, or hands the key's event
    /// to the timer. A key that gives no command does nothing.
    pub fn handle_key_event(&mut self, stroke: KeyStroke)
        ensures
            old(self).clock_reading() <= final(self).clock_reading(),
            final(self)@ == old(self)@.apply(command_of(stroke.key), final(self).clock_reading()),
    {
        match command_for_key(stroke.key) {
            Some(Command::Quit) => {
                self.exit();
            },
            Some(Command::Timer(event)) => {
                self.timer.handle_input(event);
            },
            None => {},
        }
    }

    fn exit(&mut self)
        ensures
            final(self)@ == (AppView { exit: true, timer: old(self)@.timer }),
            final(self).clock_reading() == old(self).clock_reading(),
    {
        self.exit = true;
    }

    /// The commands to show as hints in the timer's present state, in the
    /// order in which they are shown.
    pub fn relevant_instructions(&self) -> (hints: Vec<Command>)
        ensures
            hints@ == offered(self@.timer.state),
    {
        let mut hints: Vec<Command> = Vec::new();
        match self.timer.state() {
            TimerState::Idle => {
                hints.push(Command::Timer(TimerEvent::StartWork));
                hints.push(Command::Timer(TimerEvent::StartBreak));
            },
            TimerState::Running => {
                hints.push(Command::Timer(TimerEvent::Pause));
            },
            TimerState::Paused => {
                hints.push(Command::Timer(TimerEvent::Resume));
                hints.push(Command::Timer(TimerEvent::Reset));
            },
            TimerState::Completed => {
                hints.push(Command::Timer(TimerEvent::Reset));
            },
        }
        hints.push(Command::Quit);
        assert(hints@ =~= offered(self@.timer.state));
        hints
    }

    /// The five lines of the clock face that shows `duration` as minutes and
    /// seconds, two digits each.
    pub fn render_duration_as_lines(duration: TimeSpan) -> (lines: Vec<String>)
        requires
            duration@ / (NANOS_PER_SEC as nat) <= MAX_SHOWN_SECS,
        ensures
            lines@.len() == ROWS,
            forall|row: int|
                0 <= row < ROWS ==> (#[trigger] lines@[row])@ == face_row(duration@, row),
            forall|row: int| 0 <= row < ROWS ==> (#[trigger] lines@[row])@.len() == LINE_WIDTH,
    {
        let total_seconds: u64 = duration.as_secs();
        let minutes: u64 = total_seconds / 60;
        let seconds: u64 = total_seconds % 60;

        let minute_tens: u64 = minutes / 10;
        let minute_ones: u64 = minutes % 10;
        let second_tens: u64 = seconds / 10;
        let second_ones: u64 = seconds % 10;

        draw_time(minute_tens, minute_ones, second_tens, second_ones)
    }

    /// The five lines of the clock face for the time that remains now. Asks
    /// the timer, so a running timer that has nothing left becomes
    /// completed.
    pub fn clock_lines(&mut self) -> (lines: Vec<String>)
        ensures
            old(self).clock_reading() <= final(self).clock_reading(),
            final(self)@ == (AppView {
                exit: old(self)@.exit,
                timer: old(self)@.timer.observe(final(self).clock_reading()),
            }),
            lines@.len() == ROWS,
            forall|row: int|
                0 <= row < ROWS ==> (#[trigger] lines@[row])@ == face_row(
                    old(self)@.timer.remaining(final(self).clock_reading()),
                    row,
                ),
            forall|row: int| 0 <= row < ROWS ==> (#[trigger] lines@[row])@.len() == LINE_WIDTH,
    {
        let remaining: TimeSpan = self.timer.get_remaining_time();
        assert(remaining@ / (NANOS_PER_SEC as nat) <= MAX_SHOWN_SECS);
        App::render_duration_as_lines(remaining)
    }
}

impl Default for App {
    /// The same shell as [`App::new`] gives.
    fn default() -> (app: App)
        ensures
            app@ == (AppView { exit: false, timer: TimerView::initial() }),
            app.clock_reading() == 0,
    {
        App::new()
    }
}

} // verus!
