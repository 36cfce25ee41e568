//! The input line: what the keys that the player presses do to the line
//! being typed, and when a line becomes a command.

use vstd::prelude::*;
use vstd::string::*;
use crate::action::{Action, ActionView};
use crate::dispatch::{App, AppView};
use crate::game_event::GameEventType;
use crate::sound::Effect;

verus! {

/// A key that the player pressed.
#[derive(Debug, Clone, Copy, PartialEq, Eq, Structural)]
pub enum Key {
    /// The escape key.
    Esc,
    /// A key that stands for a character; the enter key is a line break.
    Char(char),
    /// The key that deletes backwards.
    Backspace,
    /// Any other key.
    Other,
}

/// What the caller is to do after a key.
#[derive(Debug, Clone, Copy, PartialEq, Eq, Structural)]
pub enum KeyOutcome {
    /// End the session.
    Quit,
    /// Play a sound.
    Sound(Effect),
    /// Nothing.
    Silent,
}

/// The log entry that echoes a line the player has sent.
pub open spec fn echo_of(line: Seq<char>) -> Seq<char> {
    "\n>>> "@ + line + "\n\n"@
}

impl AppView {
    /// The world after the player has sent the line: a line that is not
    /// empty is echoed in the log and scheduled as a command, and the
    /// input line is empty again; an empty line changes nothing.
    pub open spec fn line_sent(self) -> AppView {
        if self.input.len() == 0 {
            self
        } else {
            AppView {
                input: Seq::empty(),
                ..self.logged(echo_of(self.input), GameEventType::Normal).scheduled(
                    ActionView::Command(self.input),
                )
            }
        }
    }

    /// The world after the player has typed a character: it stands at the
    /// end of the line, and if it is the first of the line, the rules
    /// learn that the player has finished reading.
    pub open spec fn typed(self, c: char) -> AppView {
        let started = if self.input.len() == 0 {
            self.scheduled(ActionView::PlayerFinishedReading)
        } else {
            self
        };
        AppView { input: self.input.push(c), ..started }
    }

    /// The world after the player has deleted backwards: the line has
    /// lost its last character, if it had one.
    pub open spec fn erased(self) -> AppView {
        if self.input.len() == 0 {
            self
        } else {
            AppView { input: self.input.drop_last(), ..self }
        }
    }

    /// The world after a key, and what the caller is to do.
    pub open spec fn keyed(self, key: Key) -> (AppView, KeyOutcome) {
        match key {
            Key::Esc => (self, KeyOutcome::Quit),
            Key::Char(c) => if c == '\n' {
                (self.line_sent(), KeyOutcome::Silent)
            } else {
                (self.typed(c), KeyOutcome::Sound(Effect::Typing))
            },
            Key::Backspace => (self.erased(), KeyOutcome::Sound(Effect::Backspace)),
            Key::Other => (self, KeyOutcome::Silent),
        }
    }

    /// The world after the clock has told that `elapsed` milliseconds have
    /// passed: a tick is scheduled.
    pub open spec fn clocked(self, elapsed: u64) -> AppView {
        self.scheduled(ActionView::Tick(elapsed))
    }
}

/// `String::push` of the standard library: the character is appended to
/// the end of the text.
#[verifier::external_body]
fn push_char(text: &mut String, c: char)
    ensures
        final(text)@ == old(text)@.push(c),
{
    text.push(c)
}

/// `String::pop` of the standard library: the last character is removed
/// from the text and returned, or nothing is if the text is empty.
#[verifier::external_body]
fn pop_char(text: &mut String) -> (r: Option<char>)
    ensures
        old(text)@.len() == 0 ==> r is None && final(text)@ == old(text)@,
        old(text)@.len() > 0 ==> r == Some(old(text)@.last()) && final(text)@ == old(
            text,
        )@.drop_last(),
{
    text.pop()
}

/// Whole milliseconds in a span of time given as whole seconds and the
/// nanoseconds beyond them.
pub open spec fn msecs_in(secs: u64, subsec_nanos: u32) -> int {
    secs * 1000 + subsec_nanos / 1_000_000
}

/// The whole milliseconds in a span of time, given as whole seconds and
/// the nanoseconds beyond them; the largest value there is if they do not
/// fit.
pub fn duration_to_msec_u64(secs: u64, subsec_nanos: u32) -> (r: u64)
    ensures
        r == if msecs_in(secs, subsec_nanos) > u64::MAX {
            u64::MAX as int
        } else {
            msecs_in(secs, subsec_nanos)
        },
{
    let wide: u128 = secs as u128 * 1000 + (subsec_nanos / 1_000_000) as u128;
    if wide > u64::MAX as u128 {
        u64::MAX
    } else {
        wide as u64
    }
}

/// Sends the line that the player has typed.
pub fn send_line(app: &mut App)
    ensures
        final(app)@ == old(app)@.line_sent(),
{
    if app.input.as_str().unicode_len() != 0 {
        let mut content = String::new();
        std::mem::swap(&mut app.input, &mut content);
        assert(app@ == (AppView { input: Seq::empty(), ..old(app)@ }));
        assert(content@ == old(app)@.input);
        let mut echo = String::from_str("\n>>> ");
        echo.append(content.as_str());
        echo.append("\n\n");
        assert(echo@ == echo_of(content@));
        app.log_event(echo, GameEventType::Normal);
        app.event_queue.schedule_action(Action::Command(content));
    }
}

/// Puts a character at the end of the line that the player is typing.
pub fn type_char(app: &mut App, c: char)
    ensures
        final(app)@ == old(app)@.typed(c),
{
    if app.input.as_str().unicode_len() == 0 {
        app.event_queue.schedule_action(Action::PlayerFinishedReading);
    }
    let mut line = String::new();
    std::mem::swap(&mut app.input, &mut line);
    push_char(&mut line, c);
    app.input = line;
}

/// Takes the last character off the line that the player is typing.
pub fn erase_char(app: &mut App)
    ensures
        final(app)@ == old(app)@.erased(),
{
    let mut line = String::new();
    std::mem::swap(&mut app.input, &mut line);
    pop_char(&mut line);
    app.input = line;
}

/// Handles a key that the player pressed.
pub fn handle_key(app: &mut App, key: Key) -> (r: KeyOutcome)
    ensures
        (final(app)@, r) == old(app)@.keyed(key),
{
    match key {
        Key::Esc => KeyOutcome::Quit,
        Key::Char(c) => {
            if c == '\n' {
                send_line(app);
                KeyOutcome::Silent
            } else {
                type_char(app, c);
                KeyOutcome::Sound(Effect::Typing)
            }
        },
        Key::Backspace => {
            erase_char(app);
            KeyOutcome::Sound(Effect::Backspace)
        },
        Key::Other => KeyOutcome::Silent,
    }
}

/// Tells the world that `elapsed` milliseconds have passed since the last
/// frame: a tick is scheduled, and handled when its turn comes.
pub fn handle_clock(app: &mut App, elapsed: u64)
    ensures
        final(app)@ == old(app)@.clocked(elapsed),
{
    app.event_queue.schedule_action(Action::Tick(elapsed));
}

} // verus!
