use vstd::prelude::*;
use crate::keys::{DecodedKey, KeyCode};
use crate::screen::{
    active_border_color, drawable, normal_border_color, text_color, EffectView,
};
use crate::window_spec::{CurrentSwim, TickStatus, WindowView, default_file_names};

verus! {

/// The console has four windows, chosen with F1 to F4.
pub const NUM_WINDOWS: usize = 4;

/// The right-hand windows start at this column, the lower ones at this row.
pub const RIGHT_WINDOW_X: usize = 36;

pub const LOWER_WINDOW_Y: usize = 13;

/// Column of the tick counters on the right of the screen.
pub const COUNTER_COL: usize = 72;

pub const HEADER: &'static str = "Header";

pub const FILENAME_PROMPT: &'static str = "Filename: ";

pub const F1_LABEL: &'static str = "F1";

pub const F2_LABEL: &'static str = "F2";

pub const F3_LABEL: &'static str = "F3";

pub const F4_LABEL: &'static str = "F4";

/// Where the console is within a timer tick: between ticks, or waiting for
/// the program of a window to take its step (the step of the window with
/// the focus, or the scheduled extra step).
#[derive(Clone, Copy, PartialEq, Eq, Structural, Debug)]
pub enum TickPhase {
    Idle,
    ActiveStep(usize),
    ScheduledStep(usize),
}

/// What drives a timer tick: the timer itself, or the report of the
/// program step that the console asked for.
#[derive(Clone, Copy, PartialEq, Eq, Structural, Debug)]
pub enum TickEvent {
    Timer,
    Stepped(TickStatus),
}

/// What the console asks for next within a tick, as values: one step of
/// the program of `window`, given `input` first; or nothing, the tick being
/// over.
pub enum TickActionView {
    Step { window: usize, input: Option<Seq<char>> },
    Done,
}

/// The state of the console, as values.
pub struct SwimView {
    pub windows: Seq<WindowView>,
    pub window_ticks: Seq<usize>,
    pub init: bool,
    pub active_win: usize,
    pub displaying_files: bool,
    pub creating_file: bool,
    pub nextt: usize,
    pub phase: TickPhase,
}

/// A window is running a program.
pub open spec fn running(w: WindowView) -> bool {
    w.status == CurrentSwim::Running
}

/// 1 when the window is running a program, else 0.
pub open spec fn running_flag(w: WindowView) -> nat {
    if running(w) {
        1
    } else {
        0
    }
}

impl SwimView {
    /// A new console: four blank windows, the first one chosen, not yet set
    /// up.
    pub open spec fn initial() -> SwimView {
        SwimView {
            windows: seq![
                WindowView::initial(),
                WindowView::initial(),
                WindowView::initial(),
                WindowView::initial(),
            ],
            window_ticks: seq![0usize, 0usize, 0usize, 0usize],
            init: false,
            active_win: 0,
            displaying_files: true,
            creating_file: false,
            nextt: 0,
            phase: TickPhase::Idle,
        }
    }

    /// The invariant of the console.
    ///
    /// Four well-formed windows and counters; the chosen window and the
    /// scheduler's position are window numbers; the console shows file
    /// lists. Before set-up every window is in the top left corner with an empty file
    /// system; after it every window lists the starting files.
    pub open spec fn wf(self) -> bool {
        &&& self.windows.len() == NUM_WINDOWS
        &&& self.window_ticks.len() == NUM_WINDOWS
        &&& (forall|i: int| 0 <= i < NUM_WINDOWS ==> (#[trigger] self.windows[i]).wf())
        &&& self.active_win < NUM_WINDOWS
        &&& self.nextt < NUM_WINDOWS
        &&& match self.phase {
            TickPhase::Idle => true,
            TickPhase::ActiveStep(w) => w < NUM_WINDOWS,
            TickPhase::ScheduledStep(w) => w < NUM_WINDOWS,
        }
        &&& self.displaying_files
        &&& (!self.init ==> forall|i: int|
            0 <= i < NUM_WINDOWS ==> {
                &&& (#[trigger] self.windows[i]).files.len() == 0
                &&& self.windows[i].startx == 1
                &&& self.windows[i].starty == 2
                &&& self.windows[i].displaying_files
            })
        &&& (self.init ==> forall|i: int|
            0 <= i < NUM_WINDOWS ==> (#[trigger] self.windows[i]).files == default_file_names())
    }

    /// The chosen window.
    pub open spec fn active(self) -> WindowView {
        self.windows[self.active_win as int]
    }

    /// The console with window `i` replaced by `w`.
    pub open spec fn with_window(self, i: int, w: WindowView) -> SwimView {
        SwimView { windows: self.windows.update(i, w), ..self }
    }

    /// The console with the chosen window replaced by `w`.
    pub open spec fn with_active(self, w: WindowView) -> SwimView {
        self.with_window(self.active_win as int, w)
    }

    /// Applies a window step to window `i`.
    pub open spec fn step_window(self, i: int, r: (WindowView, Seq<EffectView>)) -> (
        SwimView,
        Seq<EffectView>,
    ) {
        (self.with_window(i, r.0), r.1)
    }

    /// Window `i` placed in its corner before it is set up: the first one
    /// marked as having the focus, the right-hand ones moved right, the
    /// lower ones moved down with their input row.
    pub open spec fn placed(self, i: int) -> WindowView {
        let w = self.windows[i];
        if i == 0 {
            WindowView { active: true, ..w }
        } else if i == 1 {
            WindowView { startx: RIGHT_WINDOW_X, starty: 2, outputy: 2, ..w }
        } else if i == 2 {
            WindowView { starty: LOWER_WINDOW_Y, inputy: LOWER_WINDOW_Y, ..w }
        } else {
            WindowView {
                startx: RIGHT_WINDOW_X,
                starty: LOWER_WINDOW_Y,
                inputy: LOWER_WINDOW_Y,
                ..w
            }
        }
    }

    /// The title of window `i`: its function key's number.
    pub open spec fn title(i: int) -> char {
        if i == 0 {
            '1'
        } else if i == 1 {
            '2'
        } else if i == 2 {
            '3'
        } else {
            '4'
        }
    }

    /// Setting up window `i`: placing it, then its own set-up.
    pub open spec fn setup_window(self, i: int) -> (SwimView, Seq<EffectView>) {
        let r = self.placed(i).initialize(Self::title(i), i as usize);
        (self.with_window(i, r.0), r.1)
    }

    /// Setting up the console: the header, the four windows in their
    /// corners with their titles, starting files and file lists, and the
    /// focus on the first window.
    pub open spec fn initialize(self) -> (SwimView, Seq<EffectView>) {
        let e0 = seq![EffectView::PlotStr { text: HEADER@, col: 0, row: 0, color: text_color() }];
        let (s1, e1) = self.setup_window(0);
        let (s2, e2) = s1.setup_window(1);
        let (s3, e3) = s2.setup_window(2);
        let (s4, e4) = s3.setup_window(3);
        let e5 = s4.windows[0].border(active_border_color());
        (SwimView { active_win: 0, init: true, ..s4 }, e0 + e1 + e2 + e3 + e4 + e5)
    }

    /// Moving the focus to window `win`: the old window gets a plain border
    /// and loses its mark, the new one gets the highlighted border.
    pub open spec fn set_active(self, win: usize) -> (SwimView, Seq<EffectView>) {
        let a = self.active_win as int;
        let e1 = self.windows[a].border(normal_border_color());
        let s1 = self.with_window(a, WindowView { active: false, ..self.windows[a] });
        let e2 = s1.windows[win as int].border(active_border_color());
        (SwimView { active_win: win, ..s1 }, e1 + e2)
    }

    /// Function key `n` (0 for F1): focus window `n` unless it has it.
    pub open spec fn focus(self, n: usize) -> (SwimView, Seq<EffectView>) {
        if self.active_win != n {
            self.set_active(n)
        } else {
            (self, seq![])
        }
    }

    /// A key without a character.
    pub open spec fn handle_raw(self, code: KeyCode) -> (SwimView, Seq<EffectView>) {
        let a = self.active_win as int;
        let w = self.active();
        match code {
            KeyCode::F1 => self.focus(0),
            KeyCode::F2 => self.focus(1),
            KeyCode::F3 => self.focus(2),
            KeyCode::F4 => self.focus(3),
            KeyCode::F6 => {
                if w.status == CurrentSwim::Running || w.status == CurrentSwim::DisplayingOutput
                    || w.status == CurrentSwim::AwaitingInput {
                    let w2 = WindowView { status: CurrentSwim::DisplayingFiles, ..w };
                    (self.with_active(w2), w2.display_files())
                } else {
                    (self, seq![])
                }
            },
            KeyCode::ArrowLeft => {
                if self.displaying_files {
                    (self.with_active(w.change_active_file(false)), seq![])
                } else {
                    self.step_window(a, w.sidescroll(false))
                }
            },
            KeyCode::ArrowRight => {
                if self.displaying_files {
                    (self.with_active(w.change_active_file(true)), seq![])
                } else {
                    self.step_window(a, w.sidescroll(true))
                }
            },
            KeyCode::ArrowUp => {
                if self.displaying_files {
                    (self.with_active(w.change_active_file(true)), seq![])
                } else {
                    self.step_window(a, w.verticalscroll(false))
                }
            },
            KeyCode::ArrowDown => {
                if self.displaying_files {
                    (self.with_active(w.change_active_file(true)), seq![])
                } else {
                    self.step_window(a, w.verticalscroll(true))
                }
            },
            KeyCode::Backspace | KeyCode::Delete => {
                if !self.displaying_files {
                    self.step_window(a, w.backspace())
                } else {
                    (self, seq![])
                }
            },
            _ => (self, seq![]),
        }
    }

    /// A character key.
    pub open spec fn handle_unicode(self, c: char) -> (SwimView, Seq<EffectView>) {
        let a = self.active_win as int;
        let w = self.active();
        if c == '\n' {
            let (s1, e1) = if !self.displaying_files {
                self.step_window(a, w.enter())
            } else {
                (self, seq![])
            };
            let w1 = s1.windows[a];
            if w1.status == CurrentSwim::AwaitingInput {
                (s1.with_window(a, w1.enterinput()), e1)
            } else {
                (s1, e1)
            }
        } else if c == '\u{08}' || c == '\u{7f}' {
            if !self.displaying_files {
                self.step_window(a, w.backspace())
            } else {
                (self, seq![])
            }
        } else if c == 'r' {
            if w.status == CurrentSwim::DisplayingFiles {
                self.step_window(a, w.run_active_file(self.active_win))
            } else {
                (self, seq![])
            }
        } else if drawable(c) {
            let (s1, e1) = if !self.displaying_files {
                self.step_window(a, w.add_letter(c))
            } else {
                (self, seq![])
            };
            let w1 = s1.windows[a];
            if w1.status == CurrentSwim::AwaitingInput {
                let (w2, e2) = w1.add_letter(c);
                (s1.with_window(a, w2), e1 + e2)
            } else {
                (s1, e1)
            }
        } else {
            (self, seq![])
        }
    }

    /// A key press.
    pub open spec fn key(self, key: DecodedKey) -> (SwimView, Seq<EffectView>) {
        match key {
            DecodedKey::RawKey(code) => self.handle_raw(code),
            DecodedKey::Unicode(c) => self.handle_unicode(c),
        }
    }

    /// The key press is defined: each window step that it makes is.
    pub open spec fn key_ok(self, key: DecodedKey) -> bool {
        let w = self.active();
        match key {
            DecodedKey::RawKey(code) => match code {
                KeyCode::ArrowLeft | KeyCode::ArrowRight | KeyCode::ArrowUp
                | KeyCode::ArrowDown => {
                    &&& self.displaying_files ==> w.files.len() > 0
                    &&& !self.displaying_files ==> w.cursor_inside()
                },
                KeyCode::Backspace | KeyCode::Delete => !self.displaying_files
                    ==> w.cursor_inside(),
                _ => true,
            },
            DecodedKey::Unicode(c) => {
                if c == '\n' {
                    let w1 = if !self.displaying_files {
                        w.enter().0
                    } else {
                        w
                    };
                    &&& !self.displaying_files ==> w.enter_ok()
                    &&& w1.enterinput_ok()
                } else if c == '\u{08}' || c == '\u{7f}' {
                    !self.displaying_files ==> w.cursor_inside()
                } else if c == 'r' {
                    w.status == CurrentSwim::DisplayingFiles ==> w.active_file < w.files.len()
                } else if drawable(c) {
                    let w1 = if !self.displaying_files {
                        w.add_letter(c).0
                    } else {
                        w
                    };
                    &&& !self.displaying_files ==> w.add_letter_ok()
                    &&& w1.status == CurrentSwim::AwaitingInput ==> w1.add_letter_ok()
                } else {
                    true
                }
            },
        }
    }

    /// How many of the first `n` windows run a program.
    pub open spec fn running_prefix(self, n: int) -> nat
        decreases n,
    {
        if n <= 0 {
            0
        } else {
            self.running_prefix(n - 1) + running_flag(self.windows[n - 1])
        }
    }

    /// At most `n` of the first `n` windows run a program.
    pub proof fn lemma_running_prefix_bound(self, n: int)
        requires
            n >= 0,
        ensures
            self.running_prefix(n) <= n,
        decreases n,
    {
        if n > 0 {
            self.lemma_running_prefix_bound(n - 1);
        }
    }

    /// How many windows run a program.
    pub open spec fn running_count(self) -> nat {
        self.running_prefix(NUM_WINDOWS as int)
    }

    /// The first step of a window's timer tick, on window `i`.
    pub open spec fn window_tick_begin(self, i: int) -> (SwimView, bool, Option<Seq<char>>) {
        let r = self.windows[i].tick_begin();
        (self.with_window(i, r.0), r.1, r.2)
    }

    /// The start of a timer tick: the console is set up on its first tick.
    pub open spec fn tick_start(self) -> (SwimView, Seq<EffectView>) {
        if !self.init {
            self.initialize()
        } else {
            (self, seq![])
        }
    }

    /// The scheduling step of a timer tick: the filename prompt when a file
    /// is being created, then, when some window runs a program, the window
    /// scheduled for an extra step (its tick counter counts it). The table
    /// of running windows that the scheduler reads from is never filled in,
    /// so the window it picks is always the first one.
    pub open spec fn tick_schedule(self) -> (SwimView, Seq<EffectView>, Option<usize>) {
        let e = if self.creating_file {
            seq![
                EffectView::PlotStr { text: FILENAME_PROMPT@, col: 0, row: 0, color: text_color() },
            ]
        } else {
            seq![]
        };
        let count = self.running_count();
        if count > 0 {
            let next_w = 0usize;
            (
                SwimView {
                    window_ticks: self.window_ticks.update(
                        next_w as int,
                        (self.window_ticks[next_w as int] + 1) as usize,
                    ),
                    nextt: ((self.nextt + 1) % (count as int)) as usize,
                    ..self
                },
                e,
                Some(next_w),
            )
        } else {
            (self, e, None)
        }
    }

    /// The scheduling step is defined: the counter it raises does not
    /// overflow.
    pub open spec fn tick_schedule_ok(self) -> bool {
        self.running_count() > 0 ==> self.window_ticks[0] < usize::MAX
    }

    /// The end of a timer tick: the four tick counters with their labels.
    pub open spec fn plot_ins_counts(self) -> Seq<EffectView> {
        seq![
            EffectView::PlotStr { text: F1_LABEL@, col: COUNTER_COL, row: 0, color: text_color() },
            EffectView::PlotNum {
                num: self.window_ticks[0] as isize,
                col: COUNTER_COL,
                row: 1,
                color: text_color(),
            },
            EffectView::PlotStr { text: F2_LABEL@, col: COUNTER_COL, row: 2, color: text_color() },
            EffectView::PlotNum {
                num: self.window_ticks[1] as isize,
                col: COUNTER_COL,
                row: 3,
                color: text_color(),
            },
            EffectView::PlotStr { text: F3_LABEL@, col: COUNTER_COL, row: 4, color: text_color() },
            EffectView::PlotNum {
                num: self.window_ticks[2] as isize,
                col: COUNTER_COL,
                row: 5,
                color: text_color(),
            },
            EffectView::PlotStr { text: F4_LABEL@, col: COUNTER_COL, row: 6, color: text_color() },
            EffectView::PlotNum {
                num: self.window_ticks[3] as isize,
                col: COUNTER_COL,
                row: 7,
                color: text_color(),
            },
        ]
    }
    /// The end of window `i`'s part of a tick, given what its program
    /// reported if it stepped.
    pub open spec fn finish_window(self, i: int, res: Option<TickStatus>) -> (SwimView, Seq<EffectView>) {
        self.step_window(i, self.windows[i].tick_end(res))
    }

    /// The console between ticks.
    pub open spec fn idle(self) -> SwimView {
        SwimView { phase: TickPhase::Idle, ..self }
    }

    /// Scheduling, then the scheduled window's step (asked for when its
    /// program runs), or the tick counters when the tick is over.
    pub open spec fn schedule_and_step(self) -> (SwimView, Seq<EffectView>, TickActionView) {
        let (s1, e1, r) = self.tick_schedule();
        match r {
            Some(n) => {
                let (s2, run, input) = s1.window_tick_begin(n as int);
                if run {
                    (
                        SwimView { phase: TickPhase::ScheduledStep(n), ..s2 },
                        e1,
                        TickActionView::Step { window: n, input },
                    )
                } else {
                    let (s3, e3) = s2.finish_window(n as int, None);
                    (s3, e1 + e3 + s3.plot_ins_counts(), TickActionView::Done)
                }
            },
            None => (s1, e1 + s1.plot_ins_counts(), TickActionView::Done),
        }
    }

    /// A timer tick, event by event. The timer sets the console up on its
    /// first tick and lets the window with the focus take its step; then one
    /// window that runs a program gets a scheduled extra step, and the tick
    /// counters are drawn. Whenever a program is to step, the console stops
    /// and asks for the step; the report of the step is the next event.
    pub open spec fn tick(self, event: TickEvent) -> (SwimView, Seq<EffectView>, TickActionView) {
        match event {
            TickEvent::Timer => {
                let (s1, e1) = self.tick_start();
                let a = s1.active_win;
                let (s2, run, input) = s1.window_tick_begin(a as int);
                if run {
                    (
                        SwimView { phase: TickPhase::ActiveStep(a), ..s2 },
                        e1,
                        TickActionView::Step { window: a, input },
                    )
                } else {
                    let (s3, e3) = s2.finish_window(a as int, None);
                    let (s4, e4, act) = s3.schedule_and_step();
                    (s4, e1 + e3 + e4, act)
                }
            },
            TickEvent::Stepped(res) => match self.phase {
                TickPhase::ActiveStep(a) => {
                    let (s1, e1) = self.idle().finish_window(a as int, Some(res));
                    let (s2, e2, act) = s1.schedule_and_step();
                    (s2, e1 + e2, act)
                },
                TickPhase::ScheduledStep(n) => {
                    let (s1, e1) = self.idle().finish_window(n as int, Some(res));
                    (s1, e1 + s1.plot_ins_counts(), TickActionView::Done)
                },
                TickPhase::Idle => (self, seq![], TickActionView::Done),
            },
        }
    }

    /// The event may be handled: the timer comes between ticks, a step
    /// report while a step is awaited, and the scheduler's counter does not
    /// overflow.
    pub open spec fn tick_ok(self, event: TickEvent) -> bool {
        match event {
            TickEvent::Timer => {
                let (s1, e1) = self.tick_start();
                let a = s1.active_win;
                let (s2, run, input) = s1.window_tick_begin(a as int);
                &&& self.phase == TickPhase::Idle
                &&& !run ==> s2.finish_window(a as int, None).0.tick_schedule_ok()
            },
            TickEvent::Stepped(res) => match self.phase {
                TickPhase::ActiveStep(a) => self.idle().finish_window(
                    a as int,
                    Some(res),
                ).0.tick_schedule_ok(),
                TickPhase::ScheduledStep(n) => true,
                TickPhase::Idle => false,
            },
        }
    }
}

} // verus!
