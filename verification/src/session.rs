//! The decisions of a terminal session: what to ask of the backend for each
//! operation, under which lock, and what to make of its answer. The session
//! itself performs nothing; whoever owns the backend carries the plans out.

use vstd::prelude::*;
use vstd::string::StrSliceExecFns;
use crate::event::{unpack_event, unpacked, Event, EventError, EventResult, RawEvent};
use crate::style::{Color, Style, ATTRIB_BITS, NORMAL_COLOR_BITS};

verus! {

/// How the backend reads an escape sequence that it does not know.
#[derive(Clone, Copy, PartialEq, Eq, Debug, Structural)]
pub enum InputMode {
    Current,
    /// An escape sequence that matches nothing known is the Escape key.
    Esc,
    /// An escape sequence that matches nothing known sets Alt for the next
    /// key event.
    Alt,
    /// As `Esc`, with mouse events.
    EscMouse,
    /// As `Alt`, with mouse events.
    AltMouse,
}

impl InputMode {
    pub open spec fn spec_code(self) -> i32 {
        match self {
            InputMode::Current => 0x00,
            InputMode::Esc => 0x01,
            InputMode::Alt => 0x02,
            InputMode::EscMouse => 0x05,
            InputMode::AltMouse => 0x06,
        }
    }

    /// The backend's number for the mode.
    pub fn code(self) -> (r: i32)
        ensures
            r == self.spec_code(),
    {
        match self {
            InputMode::Current => 0x00,
            InputMode::Esc => 0x01,
            InputMode::Alt => 0x02,
            InputMode::EscMouse => 0x05,
            InputMode::AltMouse => 0x06,
        }
    }
}

/// How colours are encoded, and whether there is a backend at all.
#[derive(Clone, Copy, PartialEq, Eq, Debug, Structural)]
pub enum OutputMode {
    /// Sixteen colours.
    Normal,
    /// 256 colours.
    EightBit,
    /// No backend at all: every operation does nothing.
    NoOutput,
}

impl OutputMode {
    pub open spec fn spec_code(self) -> i32 {
        match self {
            OutputMode::Normal => 0,
            OutputMode::EightBit => 1,
            OutputMode::NoOutput => 10,
        }
    }

    /// The backend's number for the mode.
    pub fn code(self) -> (r: i32)
        ensures
            r == self.spec_code(),
    {
        match self {
            OutputMode::Normal => 0,
            OutputMode::EightBit => 1,
            OutputMode::NoOutput => 10,
        }
    }

    /// Whether `color` has a code in this mode. Without a backend every
    /// colour does, since none is ever encoded.
    pub open spec fn encodes(self, color: Color) -> bool {
        match self {
            OutputMode::Normal => !(color is Byte),
            OutputMode::EightBit => !(color is Default),
            OutputMode::NoOutput => true,
        }
    }

    /// The word of a colour by this mode's encoding: the palette code in
    /// 256-colour mode, else the 16-colour code cut to the colour bits.
    pub open spec fn color_word(self, color: Color) -> u16 {
        if self is EightBit {
            color.code_256()
        } else {
            color.code_16() & NORMAL_COLOR_BITS
        }
    }

    /// The attribute word of a cell's foreground: the colour's word joined
    /// with the flags of `sty`, whose colour bits do not count.
    pub open spec fn foreground(self, sty: Style, fg: Color) -> u16 {
        self.color_word(fg) | (sty@ & ATTRIB_BITS)
    }

    /// The attribute word of a cell's background: the colour's word,
    /// without flags.
    pub open spec fn background(self, bg: Color) -> u16 {
        self.color_word(bg)
    }
}

/// What a session is opened with.
#[derive(Clone, Copy, Debug)]
pub struct InitOptions {
    pub input_mode: InputMode,
    pub output_mode: OutputMode,
    /// Hold back what is written to stderr while the session lives, and
    /// let it out when the session ends.
    pub buffer_stderr: bool,
}

impl Default for InitOptions {
    fn default() -> (r: InitOptions)
        ensures
            r.input_mode == InputMode::Current,
            r.output_mode == OutputMode::Normal,
            !r.buffer_stderr,
    {
        InitOptions {
            input_mode: InputMode::Current,
            output_mode: OutputMode::Normal,
            buffer_stderr: false,
        }
    }
}

/// The I/O error type of std, carried through as it came.
#[verifier::external_type_specification]
#[verifier::external_body]
pub struct ExIoError(std::io::Error);

/// Why no session could be opened.
#[derive(Debug)]
pub enum InitError {
    /// Stderr could not be held back.
    BufferStderrFailed(std::io::Error),
    /// Another session is open in this process.
    AlreadyOpen,
    UnsupportedTerminal,
    FailedToOpenTTy,
    PipeTrapError,
    Unknown(isize),
}

impl InitError {
    /// The error that a status of the backend's start stands for.
    pub open spec fn of_code(n: int) -> InitError {
        if n == -1 {
            InitError::UnsupportedTerminal
        } else if n == -2 {
            InitError::FailedToOpenTTy
        } else if n == -3 {
            InitError::PipeTrapError
        } else {
            InitError::Unknown(n as isize)
        }
    }

    /// The words of `description`.
    pub open spec fn description_text(&self) -> Seq<char> {
        match *self {
            InitError::BufferStderrFailed(_) => "Could not redirect stderr"@,
            InitError::AlreadyOpen => "RustBox is already open"@,
            InitError::UnsupportedTerminal => "Unsupported terminal"@,
            InitError::FailedToOpenTTy => "Failed to open TTY"@,
            InitError::PipeTrapError => "Pipe trap error"@,
            InitError::Unknown(_) => "Unknown error from Termbox"@,
        }
    }

    pub fn description(&self) -> (r: &'static str)
        ensures
            r@ == self.description_text(),
    {
        match *self {
            InitError::BufferStderrFailed(_) => "Could not redirect stderr",
            InitError::AlreadyOpen => "RustBox is already open",
            InitError::UnsupportedTerminal => "Unsupported terminal",
            InitError::FailedToOpenTTy => "Failed to open TTY",
            InitError::PipeTrapError => "Pipe trap error",
            InitError::Unknown(_) => "Unknown error from Termbox",
        }
    }

    /// The I/O error behind a failed hold on stderr; no other error has a
    /// cause.
    pub fn cause(&self) -> (r: Option<&std::io::Error>)
        ensures
            match *self {
                InitError::BufferStderrFailed(e) => r == Some(&e),
                _ => r is None,
            },
    {
        match self {
            InitError::BufferStderrFailed(e) => Some(e),
            _ => None,
        }
    }

    /// Always `Some`: every code stands for an error.
    pub fn from_i64(n: i64) -> (r: Option<InitError>)
        ensures
            r == Some(Self::of_code(n as int)),
    {
        if n == -1 {
            Some(InitError::UnsupportedTerminal)
        } else if n == -2 {
            Some(InitError::FailedToOpenTTy)
        } else if n == -3 {
            Some(InitError::PipeTrapError)
        } else {
            Some(InitError::Unknown(#[verifier::truncate] (n as isize)))
        }
    }

    /// Always `Some`, and never one of the three named failures, whose
    /// codes are negative.
    pub fn from_u64(n: u64) -> (r: Option<InitError>)
        ensures
            r == Some(InitError::Unknown(n as isize)),
    {
        Some(InitError::Unknown(#[verifier::truncate] (n as isize)))
    }

    /// Always `Some`: every code stands for an error.
    pub fn from_isize(n: isize) -> (r: Option<InitError>)
        ensures
            r == Some(Self::of_code(n as int)),
    {
        if n == -1 {
            Some(InitError::UnsupportedTerminal)
        } else if n == -2 {
            Some(InitError::FailedToOpenTTy)
        } else if n == -3 {
            Some(InitError::PipeTrapError)
        } else {
            Some(InitError::Unknown(n))
        }
    }
}

/// The lock that an operation holds while its plan is carried out. The
/// backend bears one reader beside one writer, and no two of a kind.
#[derive(Clone, Copy, PartialEq, Eq, Debug, Structural)]
pub enum Guard {
    Unguarded,
    /// The lock of those who read events.
    Input,
    /// The lock of those who draw or ask for the screen's size.
    Output,
    /// Both, the input lock taken first.
    Both,
}

impl Guard {
    /// Whether a holder of this lock may make a request that needs the
    /// lock `needed`.
    pub open spec fn covers(self, needed: Guard) -> bool {
        needed is Unguarded || self == needed || self is Both
    }
}

/// One request to the backend.
#[derive(Clone, Copy, PartialEq, Eq, Debug, Structural)]
pub enum Action {
    Init,
    Shutdown,
    Width,
    Height,
    ClearBuffer,
    ClearScreen,
    Render,
    /// Column and row.
    SetCursor(isize, isize),
    HideCursor,
    ShowCursor,
    /// Column, row, character code, foreground word, background word.
    WriteCell(usize, usize, u32, u16, u16),
    PollEvent,
    /// The time to wait, in milliseconds.
    PeekEvent(i32),
    EnableMouse,
    DisableMouse,
    SelectOutputMode(i32),
    /// Run the work that the caller of `suspend` handed in.
    RunDeferred,
}

impl Action {
    /// The lock that keeps the request apart from others of its kind: the
    /// input lock for reading events, the output lock for drawing and for
    /// asking the screen's size, both for starting and stopping the
    /// backend. The caller's own work needs none.
    pub open spec fn lock(self) -> Guard {
        match self {
            Action::PollEvent => Guard::Input,
            Action::PeekEvent(_) => Guard::Input,
            Action::Init => Guard::Both,
            Action::Shutdown => Guard::Both,
            Action::RunDeferred => Guard::Unguarded,
            _ => Guard::Output,
        }
    }
}

/// What one operation asks of the backend: the requests in order, all of
/// them under one lock.
#[derive(Debug)]
pub struct Plan {
    pub guard: Guard,
    pub actions: Vec<Action>,
}

impl Plan {
    /// Nothing to do, and no lock taken.
    pub open spec fn is_idle(&self) -> bool {
        self.guard == Guard::Unguarded && self.actions@.len() == 0
    }

    /// Exactly the given requests under the given lock.
    pub open spec fn is(&self, guard: Guard, actions: Seq<Action>) -> bool {
        self.guard == guard && self.actions@ =~= actions
    }

    /// Whether the plan's lock covers each of its requests, so that
    /// carrying it out never overlaps with a request of the same kind.
    pub open spec fn is_exclusive(&self) -> bool {
        forall|i: int|
            0 <= i < self.actions@.len() ==> self.guard.covers((#[trigger] self.actions@[i]).lock())
    }

    fn idle() -> (r: Plan)
        ensures
            r.is_idle(),
            r.is_exclusive(),
    {
        Plan { guard: Guard::Unguarded, actions: Vec::new() }
    }

    fn single(guard: Guard, action: Action) -> (r: Plan)
        ensures
            r.is(guard, seq![action]),
            guard.covers(action.lock()) ==> r.is_exclusive(),
    {
        let mut actions: Vec<Action> = Vec::new();
        actions.push(action);
        Plan { guard, actions }
    }
}

/// What `init` has to do before the session exists.
#[derive(Clone, Copy, PartialEq, Eq, Debug, Structural)]
pub struct Startup {
    pub hold_stderr: bool,
    pub start_backend: bool,
}

/// The cell writes of a text: one for each character, from column `x`
/// rightwards in row `y`, all with the same two attribute words.
pub open spec fn cell_writes(x: usize, y: usize, text: Seq<char>, fg: u16, bg: u16) -> Seq<Action> {
    Seq::new(text.len(), |i: int| Action::WriteCell((x + i) as usize, y, text[i] as u32, fg, bg))
}

/// The milliseconds of a time span given in whole seconds and the
/// nanoseconds beyond them, cut to the 32 bits that the backend takes.
pub open spec fn millis_of(secs: u64, subsec_nanos: u32) -> i32 {
    (secs * 1000 + subsec_nanos / 1_000_000) as i32
}

/// The time to wait as the backend takes it. A span of more than some 24
/// days does not fit and wraps round.
pub fn timeout_millis(secs: u64, subsec_nanos: u32) -> (r: i32)
    ensures
        r == millis_of(secs, subsec_nanos),
        secs * 1000 + subsec_nanos / 1_000_000 <= i32::MAX ==> r == secs * 1000 + subsec_nanos
            / 1_000_000,
{
    let whole: u128 = secs as u128 * 1000;
    let total: u128 = whole + (subsec_nanos / 1_000_000) as u128;
    #[verifier::truncate]
    (total as i32)
}

/// A live session: all it has to remember is its output mode.
#[derive(Debug)]
pub struct RustBox {
    output_mode: OutputMode,
}

impl RustBox {
    /// The session's output mode: the model of a session.
    pub closed spec fn view(&self) -> OutputMode {
        self.output_mode
    }

    /// Whether the session runs without a backend.
    pub open spec fn headless(&self) -> bool {
        self@ is NoOutput
    }

    /// The plan of an operation that makes one request: nothing without a
    /// backend, else the request under the lock.
    pub open spec fn asks(&self, plan: &Plan, guard: Guard, action: Action) -> bool {
        if self.headless() {
            plan.is_idle()
        } else {
            plan.is(guard, seq![action])
        }
    }

    /// The first step of `init`: refuses a second session while one is
    /// open, and else says what has to be done outside before the
    /// session can be made.
    pub fn prepare(opts: &InitOptions, already_open: bool) -> (r: Result<Startup, InitError>)
        ensures
            already_open ==> r matches Err(InitError::AlreadyOpen),
            !already_open ==> r == Ok::<Startup, InitError>(
                (Startup {
                    hold_stderr: opts.buffer_stderr,
                    start_backend: !(opts.output_mode is NoOutput),
                }),
            ),
    {
        if already_open {
            Err(InitError::AlreadyOpen)
        } else {
            Ok(
                Startup {
                    hold_stderr: opts.buffer_stderr,
                    start_backend: !matches!(opts.output_mode, OutputMode::NoOutput),
                },
            )
        }
    }

    /// The error with which `init` ends, if it ends with one: a session
    /// that is open already, then a hold on stderr that was asked for and
    /// failed, then a backend that did not start.
    pub open spec fn init_failure(
        opts: InitOptions,
        already_open: bool,
        stderr_failure: Option<std::io::Error>,
        backend_status: i32,
    ) -> Option<InitError> {
        if already_open {
            Some(InitError::AlreadyOpen)
        } else if opts.buffer_stderr && stderr_failure is Some {
            Some(InitError::BufferStderrFailed(stderr_failure->Some_0))
        } else if !(opts.output_mode is NoOutput) && backend_status != 0 {
            Some(InitError::of_code(backend_status as int))
        } else {
            None
        }
    }

    /// Makes the session, or says why there is none, from what was found
    /// outside: whether a session is open already, the error of a hold on
    /// stderr that failed, and the status with which the backend started.
    /// What was not tried is not looked at: the hold's error where none was
    /// asked for, the status where there is no backend.
    pub fn init(
        opts: InitOptions,
        already_open: bool,
        stderr_failure: Option<std::io::Error>,
        backend_status: i32,
    ) -> (r: Result<RustBox, InitError>)
        ensures
            match Self::init_failure(opts, already_open, stderr_failure, backend_status) {
                Some(e) => r == Err::<RustBox, InitError>(e),
                None => r matches Ok(rb) && rb@ == opts.output_mode,
            },
    {
        if already_open {
            return Err(InitError::AlreadyOpen);
        }
        if opts.buffer_stderr {
            match stderr_failure {
                Some(e) => {
                    return Err(InitError::BufferStderrFailed(e));
                },
                None => {},
            }
        }
        if matches!(opts.output_mode, OutputMode::NoOutput) || backend_status == 0 {
            Ok(RustBox { output_mode: opts.output_mode })
        } else {
            match InitError::from_isize(backend_status as isize) {
                Some(e) => Err(e),
                None => Err(InitError::Unknown(backend_status as isize)),
            }
        }
    }

    /// The last step of `init`: tells the backend the output mode, where
    /// that is not the one it starts in.
    pub fn configure(&mut self) -> (r: Plan)
        ensures
            r.is_exclusive(),
            final(self)@ == old(self)@,
            old(self)@ is EightBit ==> r.is(
                Guard::Output,
                seq![Action::SelectOutputMode(old(self)@.spec_code())],
            ),
            !(old(self)@ is EightBit) ==> r.is_idle(),
    {
        match self.output_mode {
            OutputMode::Normal => Plan::idle(),
            OutputMode::NoOutput => Plan::idle(),
            mode => self.set_output_mode(mode),
        }
    }

    pub fn output_mode(&self) -> (r: OutputMode)
        ensures
            r == self@,
    {
        self.output_mode
    }

    /// Whether a text may be drawn in `color`: whether the session's mode
    /// has a code for it.
    pub fn accepts(&self, color: Color) -> (r: bool)
        ensures
            r == self@.encodes(color),
    {
        match self.output_mode {
            OutputMode::Normal => !matches!(color, Color::Byte(_)),
            OutputMode::EightBit => !matches!(color, Color::Default),
            OutputMode::NoOutput => true,
        }
    }

    pub fn width(&self) -> (r: Plan)
        ensures
            r.is_exclusive(),
            self.asks(&r, Guard::Output, Action::Width),
    {
        self.request(Guard::Output, Action::Width)
    }

    pub fn height(&self) -> (r: Plan)
        ensures
            r.is_exclusive(),
            self.asks(&r, Guard::Output, Action::Height),
    {
        self.request(Guard::Output, Action::Height)
    }

    /// The width or height to report, from what the backend answered:
    /// zero without a backend, whatever the answer.
    pub fn extent(&self, reported: i32) -> (r: usize)
        ensures
            self.headless() ==> r == 0,
            !self.headless() ==> r == reported as usize,
            !self.headless() && reported >= 0 ==> r == reported,
    {
        if matches!(self.output_mode, OutputMode::NoOutput) {
            0
        } else {
            #[verifier::truncate]
            (reported as usize)
        }
    }

    pub fn clear(&self) -> (r: Plan)
        ensures
            r.is_exclusive(),
            self.asks(&r, Guard::Output, Action::ClearBuffer),
    {
        self.request(Guard::Output, Action::ClearBuffer)
    }

    pub fn clear_screen(&self) -> (r: Plan)
        ensures
            r.is_exclusive(),
            self.asks(&r, Guard::Output, Action::ClearScreen),
    {
        self.request(Guard::Output, Action::ClearScreen)
    }

    pub fn present(&self) -> (r: Plan)
        ensures
            r.is_exclusive(),
            self.asks(&r, Guard::Output, Action::Render),
    {
        self.request(Guard::Output, Action::Render)
    }

    pub fn set_cursor(&self, x: isize, y: isize) -> (r: Plan)
        ensures
            r.is_exclusive(),
            self.asks(&r, Guard::Output, Action::SetCursor(x, y)),
    {
        self.request(Guard::Output, Action::SetCursor(x, y))
    }

    /// The two attribute words of a cell drawn with `sty`, `fg` and `bg`.
    fn cell_words(&self, sty: Style, fg: Color, bg: Color) -> (r: (u16, u16))
        requires
            !self.headless(),
            self@.encodes(fg),
            self@.encodes(bg),
        ensures
            r.0 == self@.foreground(sty, fg),
            r.1 == self@.background(bg),
    {
        match self.output_mode {
            OutputMode::EightBit => {
                let fg_int = Style::from_256color(fg) | (sty & Style::attrib());
                let bg_int = Style::from_256color(bg);
                (fg_int.bits(), bg_int.bits())
            },
            _ => {
                let fg_int = Style::from_color(fg) | (sty & Style::attrib());
                let bg_int = Style::from_color(bg);
                (fg_int.bits(), bg_int.bits())
            },
        }
    }

    /// Whether `print` can place `s` from column `x`: whether the column of
    /// its last character is a number the machine holds. Without a backend
    /// nothing is placed, and every text can be.
    pub fn has_room(&self, x: usize, s: &str) -> (r: bool)
        ensures
            r == (self.headless() || s@.len() == 0 || x + s@.len() - 1 <= usize::MAX),
    {
        if matches!(self.output_mode, OutputMode::NoOutput) {
            return true;
        }
        let n: usize = s.unicode_len();
        n == 0 || x <= usize::MAX - (n - 1)
    }

    /// Draws `s` from column `x` rightwards in row `y`: one cell for each
    /// character, under the output lock. Without a backend it does nothing,
    /// whatever it is given.
    pub fn print(&self, x: usize, y: usize, sty: Style, fg: Color, bg: Color, s: &str) -> (r: Plan)
        requires
            self@.encodes(fg),
            self@.encodes(bg),
            !self.headless() ==> (s@.len() == 0 || x + s@.len() - 1 <= usize::MAX),
        ensures
            r.is_exclusive(),
            self.headless() ==> r.is_idle(),
            !self.headless() ==> r.is(
                Guard::Output,
                cell_writes(x, y, s@, self@.foreground(sty, fg), self@.background(bg)),
            ),
    {
        if matches!(self.output_mode, OutputMode::NoOutput) {
            return Plan::idle();
        }
        let (fg_word, bg_word) = self.cell_words(sty, fg, bg);
        let n: usize = s.unicode_len();
        let mut actions: Vec<Action> = Vec::new();
        let mut i: usize = 0;
        while i < n
            invariant
                n == s@.len(),
                i <= n,
                n == 0 || x + n - 1 <= usize::MAX,
                actions@.len() == i,
                forall|j: int|
                    0 <= j < i ==> actions@[j] == Action::WriteCell(
                        (x + j) as usize,
                        y,
                        s@[j] as u32,
                        fg_word,
                        bg_word,
                    ),
            decreases n - i,
        {
            let ch = s.get_char(i);
            actions.push(Action::WriteCell(x + i, y, ch as u32, fg_word, bg_word));
            i += 1;
        }
        Plan { guard: Guard::Output, actions }
    }

    /// Draws one character, under the output lock.
    pub fn print_char(&self, x: usize, y: usize, sty: Style, fg: Color, bg: Color, ch: char) -> (r:
        Plan)
        requires
            self@.encodes(fg),
            self@.encodes(bg),
        ensures
            r.is_exclusive(),
            self.asks(
                &r,
                Guard::Output,
                Action::WriteCell(
                    x,
                    y,
                    ch as u32,
                    self@.foreground(sty, fg),
                    self@.background(bg),
                ),
            ),
    {
        if matches!(self.output_mode, OutputMode::NoOutput) {
            return Plan::idle();
        }
        let (fg_word, bg_word) = self.cell_words(sty, fg, bg);
        Plan::single(Guard::Output, Action::WriteCell(x, y, ch as u32, fg_word, bg_word))
    }

    /// Waits for the next event, under the input lock.
    pub fn poll_event(&self) -> (r: Plan)
        ensures
            r.is_exclusive(),
            self.asks(&r, Guard::Input, Action::PollEvent),
    {
        self.request(Guard::Input, Action::PollEvent)
    }

    /// Waits for the next event for the given time at most, under the
    /// input lock.
    pub fn peek_event(&self, timeout_secs: u64, timeout_subsec_nanos: u32) -> (r: Plan)
        ensures
            r.is_exclusive(),
            self.asks(
                &r,
                Guard::Input,
                Action::PeekEvent(millis_of(timeout_secs, timeout_subsec_nanos)),
            ),
    {
        if matches!(self.output_mode, OutputMode::NoOutput) {
            return Plan::idle();
        }
        Plan::single(
            Guard::Input,
            Action::PeekEvent(timeout_millis(timeout_secs, timeout_subsec_nanos)),
        )
    }

    /// The event to report for what the backend answered to a poll or a
    /// peek: its status and the record it filled. Without a backend
    /// nothing was asked, and nothing happened.
    pub fn received(&self, status: i32, ev: &RawEvent, raw: bool) -> (r: EventResult)
        ensures
            self.headless() ==> r == Ok::<Event, EventError>(Event::NoEvent),
            !self.headless() ==> r == unpacked(status, *ev, raw),
    {
        if matches!(self.output_mode, OutputMode::NoOutput) {
            return Ok(Event::NoEvent);
        }
        unpack_event(status, ev, raw)
    }

    /// Writes one cell with attribute words made elsewhere. It takes no
    /// lock: it is for a caller that holds the output lock already.
    pub fn change_cell(&self, x: usize, y: usize, ch: u32, fg: u16, bg: u16) -> (r: Plan)
        ensures
            self.asks(&r, Guard::Unguarded, Action::WriteCell(x, y, ch, fg, bg)),
    {
        self.request(Guard::Unguarded, Action::WriteCell(x, y, ch, fg, bg))
    }

    pub fn hide_cursor(&self) -> (r: Plan)
        ensures
            r.is_exclusive(),
            self.asks(&r, Guard::Output, Action::HideCursor),
    {
        self.request(Guard::Output, Action::HideCursor)
    }

    pub fn show_cursor(&self) -> (r: Plan)
        ensures
            r.is_exclusive(),
            self.asks(&r, Guard::Output, Action::ShowCursor),
    {
        self.request(Guard::Output, Action::ShowCursor)
    }

    pub fn enable_mouse(&self) -> (r: Plan)
        ensures
            r.is_exclusive(),
            self.asks(&r, Guard::Output, Action::EnableMouse),
    {
        self.request(Guard::Output, Action::EnableMouse)
    }

    pub fn disable_mouse(&self) -> (r: Plan)
        ensures
            r.is_exclusive(),
            self.asks(&r, Guard::Output, Action::DisableMouse),
    {
        self.request(Guard::Output, Action::DisableMouse)
    }

    /// Changes the output mode. The output lock is taken in any case; the
    /// backend is told unless the new mode is the one without a backend.
    pub fn set_output_mode(&mut self, mode: OutputMode) -> (r: Plan)
        ensures
            r.is_exclusive(),
            final(self)@ == mode,
            mode is NoOutput ==> r.is(Guard::Output, Seq::<Action>::empty()),
            !(mode is NoOutput) ==> r.is(
                Guard::Output,
                seq![Action::SelectOutputMode(mode.spec_code())],
            ),
    {
        self.output_mode = mode;
        if matches!(mode, OutputMode::NoOutput) {
            Plan { guard: Guard::Output, actions: Vec::new() }
        } else {
            Plan::single(Guard::Output, Action::SelectOutputMode(mode.code()))
        }
    }

    /// Leaves the terminal to the caller's work and takes it back: with
    /// both locks held, the backend is shut down, the work runs, and the
    /// backend is started again. Without a backend only the work runs.
    pub fn suspend(&self) -> (r: Plan)
        ensures
            r.is_exclusive(),
            self.headless() ==> r.is(Guard::Both, seq![Action::RunDeferred]),
            !self.headless() ==> r.is(
                Guard::Both,
                seq![Action::Shutdown, Action::RunDeferred, Action::Init],
            ),
    {
        let mut actions: Vec<Action> = Vec::new();
        if !matches!(self.output_mode, OutputMode::NoOutput) {
            actions.push(Action::Shutdown);
        }
        actions.push(Action::RunDeferred);
        if !matches!(self.output_mode, OutputMode::NoOutput) {
            actions.push(Action::Init);
        }
        Plan { guard: Guard::Both, actions }
    }

    /// Ends the session: the backend is shut down, once, if there is one.
    /// The session is used up, so it cannot be ended twice.
    pub fn teardown(self) -> (r: Plan)
        ensures
            self.asks(&r, Guard::Unguarded, Action::Shutdown),
    {
        self.request(Guard::Unguarded, Action::Shutdown)
    }

    fn request(&self, guard: Guard, action: Action) -> (r: Plan)
        ensures
            self.asks(&r, guard, action),
            guard.covers(action.lock()) ==> r.is_exclusive(),
    {
        if matches!(self.output_mode, OutputMode::NoOutput) {
            Plan::idle()
        } else {
            Plan::single(guard, action)
        }
    }
}

/// Without a backend no operation asks anything of it: a plan that meets
/// `asks` is empty and takes no lock, whatever the request would have been.
pub proof fn lemma_headless_asks_nothing(rb: &RustBox, plan: &Plan, guard: Guard, action: Action)
    requires
        rb.headless(),
        rb.asks(plan, guard, action),
    ensures
        plan.guard == Guard::Unguarded,
        plan.actions@ == Seq::<Action>::empty(),
{
    assert(plan.actions@ =~= Seq::<Action>::empty());
}

} // verus!
