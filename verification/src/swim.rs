use vstd::prelude::*;
use crate::keys::{DecodedKey, KeyCode};
use crate::screen::{effects_view, is_drawable, plot_num, plot_str, text_code, Effect};
use crate::swim_spec::{
    SwimView, TickActionView, TickEvent, TickPhase, COUNTER_COL, F1_LABEL, F2_LABEL, F3_LABEL, F4_LABEL, FILENAME_PROMPT, HEADER,
    LOWER_WINDOW_Y, NUM_WINDOWS, RIGHT_WINDOW_X,
};
use crate::window::{appended, SwimInterface};
use crate::window_spec::{CurrentSwim, TickStatus, WindowView, INPUT_CAPACITY};

verus! {

/// The windows' states, in order.
pub open spec fn windows_view(ws: Seq<SwimInterface>) -> Seq<WindowView> {
    ws.map_values(|w: SwimInterface| w@)
}

proof fn lemma_put_back(ws: Seq<SwimInterface>, i: int, w: SwimInterface)
    requires
        0 <= i < ws.len(),
    ensures
        windows_view(ws.remove(i).insert(i, w)) == windows_view(ws).update(i, w@),
{
    assert(ws.remove(i).insert(i, w) =~= ws.update(i, w));
    assert(windows_view(ws.update(i, w)) =~= windows_view(ws).update(i, w@));
}

/// Replacing a window of a well-formed console by a well-formed window with
/// the same place, file list and file display keeps the console well-formed.
proof fn lemma_with_window_wf(s: SwimView, i: int, w: WindowView)
    requires
        s.wf(),
        0 <= i < NUM_WINDOWS,
        w.wf(),
        w.files == s.windows[i].files,
        w.startx == s.windows[i].startx,
        w.starty == s.windows[i].starty,
        w.displaying_files == s.windows[i].displaying_files,
    ensures
        s.with_window(i, w).wf(),
{
    let t = s.with_window(i, w);
    assert forall|j: int| 0 <= j < NUM_WINDOWS implies (#[trigger] t.windows[j]).wf() by {
        if j != i {
            assert(t.windows[j] == s.windows[j]);
        }
    }
    if !t.init {
        assert forall|j: int| 0 <= j < NUM_WINDOWS implies {
            &&& (#[trigger] t.windows[j]).files.len() == 0
            &&& t.windows[j].startx == 1
            &&& t.windows[j].starty == 2
            &&& t.windows[j].displaying_files
        } by {
            if j != i {
                assert(t.windows[j] == s.windows[j]);
            }
        }
    }
    if t.init {
        assert forall|j: int| 0 <= j < NUM_WINDOWS implies (#[trigger] t.windows[j]).files
            == crate::window_spec::default_file_names() by {
            if j != i {
                assert(t.windows[j] == s.windows[j]);
            }
        }
    }
}

/// What the console asks for next within a timer tick: one step of the
/// program of `window`, handing it `input` first; or nothing, the tick
/// being over.
#[derive(Debug, PartialEq, Eq)]
pub enum TickAction {
    Step { window: usize, input: Option<Vec<char>> },
    Done,
}

impl View for TickAction {
    type V = TickActionView;

    open spec fn view(&self) -> TickActionView {
        match self {
            TickAction::Step { window, input } => TickActionView::Step {
                window: *window,
                input: match input {
                    Some(v) => Some(v@),
                    None => None,
                },
            },
            TickAction::Done => TickActionView::Done,
        }
    }
}

/// The console: four windows, the one with the focus, the tick counters of
/// the scheduler.
pub struct Swim {
    windows: Vec<SwimInterface>,
    window_ticks: Vec<usize>,
    init: bool,
    active_win: usize,
    displaying_files: bool,
    creating_file: bool,
    nextt: usize,
    phase: TickPhase,
}

impl View for Swim {
    type V = SwimView;

    closed spec fn view(&self) -> SwimView {
        SwimView {
            windows: windows_view(self.windows@),
            window_ticks: self.window_ticks@,
            init: self.init,
            active_win: self.active_win,
            displaying_files: self.displaying_files,
            creating_file: self.creating_file,
            nextt: self.nextt,
            phase: self.phase,
        }
    }
}

impl Default for Swim {
    fn default() -> (s: Swim)
        ensures
            s@ == SwimView::initial(),
            s@.wf(),
    {
        let mut windows: Vec<SwimInterface> = Vec::new();
        windows.push(SwimInterface::default());
        windows.push(SwimInterface::default());
        windows.push(SwimInterface::default());
        windows.push(SwimInterface::default());
        let mut window_ticks: Vec<usize> = Vec::new();
        window_ticks.push(0);
        window_ticks.push(0);
        window_ticks.push(0);
        window_ticks.push(0);
        let s = Swim {
            windows,
            window_ticks,
            init: false,
            active_win: 0,
            displaying_files: true,
            creating_file: false,
            nextt: 0,
            phase: TickPhase::Idle,
        };
        assert(windows_view(s.windows@) =~= SwimView::initial().windows);
        assert(s.window_ticks@ =~= SwimView::initial().window_ticks);
        s
    }
}

impl Swim {
    /// Takes window `i` out of the list.
    fn take_window(&mut self, i: usize) -> (w: SwimInterface)
        requires
            i < old(self).windows@.len(),
        ensures
            w == old(self).windows@[i as int],
            final(self).windows@ == old(self).windows@.remove(i as int),
            final(self).window_ticks == old(self).window_ticks,
            final(self).init == old(self).init,
            final(self).active_win == old(self).active_win,
            final(self).displaying_files == old(self).displaying_files,
            final(self).creating_file == old(self).creating_file,
            final(self).nextt == old(self).nextt,
            final(self).phase == old(self).phase,
    {
        self.windows.remove(i)
    }

    /// Puts window `w` back at position `i`.
    fn put_window(&mut self, i: usize, w: SwimInterface)
        requires
            i <= old(self).windows@.len(),
        ensures
            final(self).windows@ == old(self).windows@.insert(i as int, w),
            final(self).window_ticks == old(self).window_ticks,
            final(self).init == old(self).init,
            final(self).active_win == old(self).active_win,
            final(self).displaying_files == old(self).displaying_files,
            final(self).creating_file == old(self).creating_file,
            final(self).nextt == old(self).nextt,
            final(self).phase == old(self).phase,
    {
        self.windows.insert(i, w);
    }
    /// Puts window `w` back at position `i` of the list it was taken from.
    fn put_back(&mut self, i: usize, w: SwimInterface, Ghost(ws0): Ghost<Seq<SwimInterface>>)
        requires
            i < ws0.len(),
            old(self).windows@ == ws0.remove(i as int),
        ensures
            final(self)@ == (SwimView { windows: windows_view(ws0).update(i as int, w@), ..old(self)@ }),
            final(self).windows@ == ws0.update(i as int, w),
    {
        proof {
            lemma_put_back(ws0, i as int, w);
        }
        self.put_window(i, w);
        assert(self.windows@ =~= ws0.update(i as int, w));
    }

    /// Window `i`.
    pub fn window(&self, i: usize) -> (w: &SwimInterface)
        requires
            self@.wf(),
            i < NUM_WINDOWS,
        ensures
            w@ == self@.windows[i as int],
    {
        &self.windows[i]
    }

    /// The window with the focus.
    pub fn active_win(&self) -> (a: usize)
        ensures
            a == self@.active_win,
    {
        self.active_win
    }

    /// How many scheduled steps window `i` has had.
    pub fn window_ticks(&self, i: usize) -> (n: usize)
        requires
            self@.wf(),
            i < NUM_WINDOWS,
        ensures
            n == self@.window_ticks[i as int],
    {
        self.window_ticks[i]
    }

    /// Whether the console has been set up.
    pub fn is_initialized(&self) -> (b: bool)
        ensures
            b == self@.init,
    {
        self.init
    }

    /// Moves the focus to window `win`.
    fn set_active(&mut self, win: usize, out: &mut Vec<Effect>)
        requires
            old(self)@.wf(),
            win < NUM_WINDOWS,
        ensures
            final(self)@ == old(self)@.set_active(win).0,
            appended(old(out)@, final(out)@, old(self)@.set_active(win).1),
            final(self)@.wf(),
    {
        let a = self.active_win;
        assert(self@.windows[a as int] == self.windows@[a as int]@);
        self.windows[a].normal_border(out);
        let ghost ws0 = self.windows@;
        let mut w = self.take_window(a);
        w.set_active(false);
        self.put_back(a, w, Ghost(ws0));
        proof {
            lemma_with_window_wf(old(self)@, a as int, w@);
        }
        self.active_win = win;
        assert(self@.windows[win as int] == self.windows@[win as int]@);
        self.windows[win].active_border(out);
        assert(effects_view(out@) =~= effects_view(old(out)@) + old(self)@.set_active(win).1);
    }

    /// Function key `n`: moves the focus to window `n` unless it is there.
    fn focus(&mut self, n: usize, out: &mut Vec<Effect>)
        requires
            old(self)@.wf(),
            n < NUM_WINDOWS,
        ensures
            final(self)@ == old(self)@.focus(n).0,
            appended(old(out)@, final(out)@, old(self)@.focus(n).1),
            final(self)@.wf(),
    {
        if self.active_win != n {
            self.set_active(n, out);
        } else {
            assert(effects_view(out@) =~= effects_view(old(out)@) + seq![]);
        }
    }

    /// A key without a character.
    fn handle_raw(&mut self, code: KeyCode, out: &mut Vec<Effect>)
        requires
            old(self)@.wf(),
            old(self)@.key_ok(DecodedKey::RawKey(code)),
        ensures
            final(self)@ == old(self)@.handle_raw(code).0,
            appended(old(out)@, final(out)@, old(self)@.handle_raw(code).1),
            final(self)@.wf(),
    {
        match code {
            KeyCode::F1 => self.focus(0, out),
            KeyCode::F2 => self.focus(1, out),
            KeyCode::F3 => self.focus(2, out),
            KeyCode::F4 => self.focus(3, out),
            KeyCode::F5 | KeyCode::Other => {
                assert(effects_view(out@) =~= effects_view(old(out)@) + seq![]);
            },
            _ => {
                let a = self.active_win;
                let ghost ws0 = self.windows@;
                assert(windows_view(ws0)[a as int] == ws0[a as int]@);
                let mut w = self.take_window(a);
                match code {
                    KeyCode::F6 => {
                        let st = w.status();
                        if st == CurrentSwim::Running {
                            w.set_status(CurrentSwim::DisplayingFiles);
                            w.display_files(out);
                        } else if st == CurrentSwim::DisplayingOutput {
                            w.set_status(CurrentSwim::DisplayingFiles);
                            w.display_files(out);
                        } else if st == CurrentSwim::AwaitingInput {
                            w.set_status(CurrentSwim::DisplayingFiles);
                            w.display_files(out);
                        }
                    },
                    KeyCode::ArrowLeft => {
                        if self.displaying_files {
                            w.change_active_file(false);
                        } else {
                            w.sidescroll(false, out);
                        }
                    },
                    KeyCode::ArrowRight => {
                        if self.displaying_files {
                            w.change_active_file(true);
                        } else {
                            w.sidescroll(true, out);
                        }
                    },
                    KeyCode::ArrowUp => {
                        if self.displaying_files {
                            w.change_active_file(true);
                        } else {
                            w.verticalscroll(false, out);
                        }
                    },
                    KeyCode::ArrowDown => {
                        if self.displaying_files {
                            w.change_active_file(true);
                        } else {
                            w.verticalscroll(true, out);
                        }
                    },
                    _ => {
                        if !self.displaying_files {
                            w.backspace(out);
                        }
                    },
                }
                self.put_back(a, w, Ghost(ws0));
                proof {
                    lemma_with_window_wf(old(self)@, a as int, w@);
                }
                assert(self@.windows =~= old(self)@.handle_raw(code).0.windows);
                assert(effects_view(out@) =~= effects_view(old(out)@) + old(self)@.handle_raw(
                    code,
                ).1);
            },
        }
    }

    /// A character key.
    fn handle_unicode(&mut self, c: char, out: &mut Vec<Effect>)
        requires
            old(self)@.wf(),
            old(self)@.key_ok(DecodedKey::Unicode(c)),
        ensures
            final(self)@ == old(self)@.handle_unicode(c).0,
            appended(old(out)@, final(out)@, old(self)@.handle_unicode(c).1),
            final(self)@.wf(),
    {
        let a = self.active_win;
        let ghost ws0 = self.windows@;
        assert(windows_view(ws0)[a as int] == ws0[a as int]@);
        let mut w = self.take_window(a);
        if c == '\n' {
            if !self.displaying_files {
                w.enter(out);
            }
            if w.status() == CurrentSwim::AwaitingInput {
                w.enterinput();
            }
        } else if c == '\u{08}' || c == '\u{7f}' {
            if !self.displaying_files {
                w.backspace(out);
            }
        } else if c == 'r' {
            if w.status() == CurrentSwim::DisplayingFiles {
                w.run_active_file(a, out);
            }
        } else if is_drawable(c) {
            if !self.displaying_files {
                w.add_letter(c, out);
            }
            if w.status() == CurrentSwim::AwaitingInput {
                w.add_letter(c, out);
            }
        }
        self.put_back(a, w, Ghost(ws0));
        proof {
            lemma_with_window_wf(old(self)@, a as int, w@);
        }
        assert(self@.windows =~= old(self)@.handle_unicode(c).0.windows);
        assert(effects_view(out@) =~= effects_view(old(out)@) + old(self)@.handle_unicode(c).1);
    }

    /// Handles a key press. The effects to carry out are appended to `out`.
    pub fn key(&mut self, key: DecodedKey, out: &mut Vec<Effect>)
        requires
            old(self)@.wf(),
            old(self)@.key_ok(key),
        ensures
            final(self)@ == old(self)@.key(key).0,
            appended(old(out)@, final(out)@, old(self)@.key(key).1),
            final(self)@.wf(),
    {
        match key {
            DecodedKey::RawKey(code) => self.handle_raw(code, out),
            DecodedKey::Unicode(c) => self.handle_unicode(c, out),
        }
    }

    /// Whether `key` may be handled now: false exactly on the presses on
    /// which the console cannot go on (an arrow key before the file lists
    /// exist, Enter on an empty or overlong input line, a letter when the
    /// letter count is exhausted, `r` without a file to run).
    pub fn accepts_key(&self, key: DecodedKey) -> (b: bool)
        requires
            self@.wf(),
        ensures
            b == self@.key_ok(key),
    {
        let w = &self.windows[self.active_win];
        match key {
            DecodedKey::RawKey(code) => match code {
                KeyCode::ArrowLeft | KeyCode::ArrowRight | KeyCode::ArrowUp
                | KeyCode::ArrowDown => w.file_count() > 0,
                _ => true,
            },
            DecodedKey::Unicode(c) => {
                if c == '\n' {
                    w.status() != CurrentSwim::AwaitingInput || (1 <= w.num_letters()
                        && w.num_letters() <= INPUT_CAPACITY + 1)
                } else if c == '\u{08}' || c == '\u{7f}' {
                    true
                } else if c == 'r' {
                    w.status() != CurrentSwim::DisplayingFiles || w.active_file() < w.file_count()
                } else if is_drawable(c) {
                    w.status() != CurrentSwim::AwaitingInput || w.num_letters() <= usize::MAX - 2
                } else {
                    true
                }
            },
        }
    }
    /// Places window `i` in its corner and sets it up.
    fn setup_window(&mut self, i: usize, out: &mut Vec<Effect>)
        requires
            old(self)@.windows.len() == NUM_WINDOWS,
            old(self).windows@.len() == NUM_WINDOWS,
            i < NUM_WINDOWS,
            old(self)@.windows[i as int].wf(),
            old(self)@.windows[i as int].files.len() == 0,
            old(self)@.windows[i as int].startx == 1,
            old(self)@.windows[i as int].starty == 2,
            old(self)@.windows[i as int].displaying_files,
        ensures
            final(self).windows@.len() == NUM_WINDOWS,
            final(self)@.windows[i as int].wf(),
            final(self)@ == old(self)@.setup_window(i as int).0,
            appended(old(out)@, final(out)@, old(self)@.setup_window(i as int).1),
    {
        let ghost ws0 = self.windows@;
        assert(windows_view(ws0)[i as int] == ws0[i as int]@);
        let mut w = self.take_window(i);
        if i == 0 {
            w.set_active(true);
            w.initialize('1', 0, out);
        } else if i == 1 {
            w.set_startx(RIGHT_WINDOW_X);
            w.set_starty(2);
            w.set_outputy(2);
            w.initialize('2', 1, out);
        } else if i == 2 {
            w.set_starty(LOWER_WINDOW_Y);
            w.set_starty(LOWER_WINDOW_Y);
            w.set_inputy(LOWER_WINDOW_Y);
            w.initialize('3', 2, out);
        } else {
            w.set_startx(RIGHT_WINDOW_X);
            w.set_starty(LOWER_WINDOW_Y);
            w.set_inputy(LOWER_WINDOW_Y);
            w.set_starty(LOWER_WINDOW_Y);
            w.initialize('4', 3, out);
        }
        self.put_back(i, w, Ghost(ws0));
    }

    /// Sets the console up: the header, the four windows in their corners
    /// with their titles, starting files and file lists, and the focus on
    /// the first window.
    fn initialize(&mut self, out: &mut Vec<Effect>)
        requires
            old(self)@.wf(),
            !old(self)@.init,
        ensures
            final(self)@ == old(self)@.initialize().0,
            appended(old(out)@, final(out)@, old(self)@.initialize().1),
            final(self)@.wf(),
    {
        let ghost s0 = self@;
        plot_str(out, String::from_str(HEADER), 0, 0, text_code());
        assert(self.windows@.len() == NUM_WINDOWS);
        self.setup_window(0, out);
        let ghost s1 = self@;
        self.setup_window(1, out);
        let ghost s2 = self@;
        self.setup_window(2, out);
        let ghost s3 = self@;
        self.setup_window(3, out);
        let ghost s4 = self@;
        assert(self@.windows[0] == self.windows@[0]@);
        self.windows[0].active_border(out);
        self.active_win = 0;
        self.init = true;
        assert(s1 == s0.setup_window(0).0);
        assert(s2 == s1.setup_window(1).0);
        assert(s3 == s2.setup_window(2).0);
        assert(s4 == s3.setup_window(3).0);
        assert(effects_view(out@) =~= effects_view(old(out)@) + s0.initialize().1);
        assert(self@ == s0.initialize().0);
        assert(crate::window_spec::default_file_names() =~= seq![]
            + crate::window_spec::default_file_names());
    }

    /// The start of a timer tick: on the first tick the console is set up.
    /// Returns the window whose program is to be stepped next (the one with
    /// the focus).
    fn tick_start(&mut self, out: &mut Vec<Effect>) -> (a: usize)
        requires
            old(self)@.wf(),
        ensures
            final(self)@ == old(self)@.tick_start().0,
            appended(old(out)@, final(out)@, old(self)@.tick_start().1),
            final(self)@.wf(),
            a == final(self)@.active_win,
    {
        if !self.init {
            self.initialize(out);
        } else {
            assert(effects_view(out@) =~= effects_view(old(out)@) + seq![]);
        }
        self.active_win
    }

    /// The scheduling step of a timer tick. Returns the window, if any, that
    /// gets an extra program step this tick, and counts that step.
    fn tick_schedule(&mut self, out: &mut Vec<Effect>) -> (r: Option<usize>)
        requires
            old(self)@.wf(),
            old(self)@.tick_schedule_ok(),
        ensures
            final(self)@ == old(self)@.tick_schedule().0,
            appended(old(out)@, final(out)@, old(self)@.tick_schedule().1),
            r == old(self)@.tick_schedule().2,
            final(self)@.wf(),
    {
        if self.creating_file {
            plot_str(out, String::from_str(FILENAME_PROMPT), 0, 0, text_code());
        }
        assert(effects_view(out@) =~= effects_view(old(out)@) + old(self)@.tick_schedule().1);
        let programs_running: [usize; 4] = [0, 0, 0, 0];
        let running_count = self.count_running();
        if running_count > 0 {
            let next_w = programs_running[self.nextt % running_count];
            assert(next_w == 0);
            let t = self.window_ticks[next_w] + 1;
            self.window_ticks.set(next_w, t);
            self.nextt = (self.nextt + 1) % running_count;
            Some(next_w)
        } else {
            None
        }
    }

    /// The end of a timer tick: draws the four tick counters.
    fn plot_ins_counts(&self, out: &mut Vec<Effect>)
        requires
            self@.wf(),
        ensures
            appended(old(out)@, final(out)@, self@.plot_ins_counts()),
    {
        let color = text_code();
        plot_str(out, String::from_str(F1_LABEL), COUNTER_COL, 0, color);
        plot_num(out, self.window_ticks[0] as isize, COUNTER_COL, 1, color);
        plot_str(out, String::from_str(F2_LABEL), COUNTER_COL, 2, color);
        plot_num(out, self.window_ticks[1] as isize, COUNTER_COL, 3, color);
        plot_str(out, String::from_str(F3_LABEL), COUNTER_COL, 4, color);
        plot_num(out, self.window_ticks[2] as isize, COUNTER_COL, 5, color);
        plot_str(out, String::from_str(F4_LABEL), COUNTER_COL, 6, color);
        plot_num(out, self.window_ticks[3] as isize, COUNTER_COL, 7, color);
        assert(effects_view(out@) =~= effects_view(old(out)@) + self@.plot_ins_counts());
    }

    /// First half of window `i`'s timer tick: whether its program steps
    /// now, and the input to hand the program first.
    fn window_tick_begin(&mut self, i: usize) -> (r: (bool, Option<Vec<char>>))
        requires
            old(self)@.wf(),
            i < NUM_WINDOWS,
        ensures
            final(self)@ == old(self)@.window_tick_begin(i as int).0,
            r.0 == old(self)@.window_tick_begin(i as int).1,
            r.1 is Some <==> old(self)@.window_tick_begin(i as int).2 is Some,
            r.1 is Some ==> r.1.unwrap()@ == old(self)@.window_tick_begin(i as int).2.unwrap(),
            final(self)@.wf(),
    {
        let ghost ws0 = self.windows@;
        assert(windows_view(ws0)[i as int] == ws0[i as int]@);
        let mut w = self.take_window(i);
        let r = w.tick_begin();
        self.put_back(i, w, Ghost(ws0));
        proof {
            lemma_with_window_wf(old(self)@, i as int, w@);
        }
        r
    }

    /// Output of window `i`'s program.
    pub fn window_print(&mut self, i: usize, chars: &[u8], out: &mut Vec<Effect>)
        requires
            old(self)@.wf(),
            i < NUM_WINDOWS,
            old(self)@.windows[i as int].outputy < usize::MAX,
        ensures
            final(self)@ == old(self)@.step_window(i as int, old(self)@.windows[i as int].print(
                chars@,
            )).0,
            appended(old(out)@, final(out)@, old(self)@.windows[i as int].print(chars@).1),
            final(self)@.wf(),
    {
        let ghost ws0 = self.windows@;
        assert(windows_view(ws0)[i as int] == ws0[i as int]@);
        let mut w = self.take_window(i);
        w.print(chars, out);
        self.put_back(i, w, Ghost(ws0));
        proof {
            lemma_with_window_wf(old(self)@, i as int, w@);
        }
    }

    /// Second half of window `i`'s timer tick, given what its program
    /// reported if it stepped.
    fn window_tick_end(&mut self, i: usize, res: Option<TickStatus>, out: &mut Vec<Effect>)
        requires
            old(self)@.wf(),
            i < NUM_WINDOWS,
        ensures
            final(self)@ == old(self)@.step_window(i as int, old(self)@.windows[i as int].tick_end(
                res,
            )).0,
            appended(old(out)@, final(out)@, old(self)@.windows[i as int].tick_end(res).1),
            final(self)@.wf(),
    {
        let ghost ws0 = self.windows@;
        assert(windows_view(ws0)[i as int] == ws0[i as int]@);
        let mut w = self.take_window(i);
        w.tick_end(res, out);
        self.put_back(i, w, Ghost(ws0));
        proof {
            lemma_with_window_wf(old(self)@, i as int, w@);
        }
    }
    /// How many windows run a program.
    fn count_running(&self) -> (n: usize)
        requires
            self@.wf(),
        ensures
            n == self@.running_count(),
            n <= NUM_WINDOWS,
            n > 0 <==> exists|j: int|
                0 <= j < NUM_WINDOWS && (#[trigger] self@.windows[j]).status
                    == CurrentSwim::Running,
    {
        proof {
            crate::laws::lemma_schedule_counts_only_running_windows_count(self@);
        }
        let mut running_count: usize = 0;
        let mut i: usize = 0;
        while i < self.windows.len()
            invariant
                self@.wf(),
                self.windows@.len() == NUM_WINDOWS,
                0 <= i <= NUM_WINDOWS,
                running_count == self@.running_prefix(i as int),
                running_count <= i,
            decreases NUM_WINDOWS - i,
        {
            assert(self@.windows[i as int] == self.windows@[i as int]@);
            if self.windows[i].status() == CurrentSwim::Running {
                running_count = running_count + 1;
            }
            i = i + 1;
        }
        running_count
    }

    /// Whether the scheduling step may run now: false exactly when a window
    /// runs a program and the first window's tick counter is exhausted.
    fn accepts_tick_schedule(&self) -> (b: bool)
        requires
            self@.wf(),
        ensures
            b == self@.tick_schedule_ok(),
    {
        self.count_running() == 0 || self.window_ticks[0] < usize::MAX
    }

    /// Scheduling, then the scheduled window's step or the tick counters.
    fn schedule_and_step(&mut self, out: &mut Vec<Effect>) -> (act: TickAction)
        requires
            old(self)@.wf(),
            old(self)@.tick_schedule_ok(),
        ensures
            final(self)@ == old(self)@.schedule_and_step().0,
            appended(old(out)@, final(out)@, old(self)@.schedule_and_step().1),
            act@ == old(self)@.schedule_and_step().2,
            final(self)@.wf(),
    {
        let ghost s0 = self@;
        let r = self.tick_schedule(out);
        match r {
            Some(n) => {
                let (run, input) = self.window_tick_begin(n);
                if run {
                    self.phase = TickPhase::ScheduledStep(n);
                    TickAction::Step { window: n, input }
                } else {
                    self.window_tick_end(n, None, out);
                    self.plot_ins_counts(out);
                    assert(effects_view(out@) =~= effects_view(old(out)@)
                        + s0.schedule_and_step().1);
                    TickAction::Done
                }
            },
            None => {
                self.plot_ins_counts(out);
                assert(effects_view(out@) =~= effects_view(old(out)@) + s0.schedule_and_step().1);
                TickAction::Done
            },
        }
    }

    /// The timer: set-up on the first tick, then the step of the window
    /// with the focus.
    #[verifier::spinoff_prover]
    #[verifier::rlimit(40)]
    fn tick_timer(&mut self, out: &mut Vec<Effect>) -> (act: TickAction)
        requires
            old(self)@.wf(),
            old(self)@.tick_ok(TickEvent::Timer),
        ensures
            final(self)@ == old(self)@.tick(TickEvent::Timer).0,
            appended(old(out)@, final(out)@, old(self)@.tick(TickEvent::Timer).1),
            act@ == old(self)@.tick(TickEvent::Timer).2,
            final(self)@.wf(),
    {
        let ghost s0 = self@;
        let a = self.tick_start(out);
        let (run, input) = self.window_tick_begin(a);
        if run {
            self.phase = TickPhase::ActiveStep(a);
            TickAction::Step { window: a, input }
        } else {
            self.window_tick_end(a, None, out);
            let act = self.schedule_and_step(out);
            assert(effects_view(out@) =~= effects_view(old(out)@) + s0.tick(TickEvent::Timer).1);
            act
        }
    }

    /// The report of a program step.
    #[verifier::spinoff_prover]
    #[verifier::rlimit(40)]
    fn tick_stepped(&mut self, res: TickStatus, out: &mut Vec<Effect>) -> (act: TickAction)
        requires
            old(self)@.wf(),
            old(self)@.tick_ok(TickEvent::Stepped(res)),
        ensures
            final(self)@ == old(self)@.tick(TickEvent::Stepped(res)).0,
            appended(old(out)@, final(out)@, old(self)@.tick(TickEvent::Stepped(res)).1),
            act@ == old(self)@.tick(TickEvent::Stepped(res)).2,
            final(self)@.wf(),
    {
        let ghost s0 = self@;
        match self.phase {
            TickPhase::ActiveStep(a) => {
                self.phase = TickPhase::Idle;
                self.window_tick_end(a, Some(res), out);
                let act = self.schedule_and_step(out);
                assert(effects_view(out@) =~= effects_view(old(out)@) + s0.tick(
                    TickEvent::Stepped(res),
                ).1);
                act
            },
            TickPhase::ScheduledStep(n) => {
                self.phase = TickPhase::Idle;
                self.window_tick_end(n, Some(res), out);
                self.plot_ins_counts(out);
                assert(effects_view(out@) =~= effects_view(old(out)@) + s0.tick(
                    TickEvent::Stepped(res),
                ).1);
                TickAction::Done
            },
            TickPhase::Idle => {
                assert(effects_view(out@) =~= effects_view(old(out)@) + seq![]);
                TickAction::Done
            },
        }
    }

    /// Handles a timer tick event by event. `Timer` starts a tick; whenever
    /// the answer asks for a program step, the host runs that step (handing
    /// the program its input first) and reports the program's status with
    /// `Stepped`. The effects to carry out are appended to `out`.
    pub fn tick(&mut self, event: TickEvent, out: &mut Vec<Effect>) -> (act: TickAction)
        requires
            old(self)@.wf(),
            old(self)@.tick_ok(event),
        ensures
            final(self)@ == old(self)@.tick(event).0,
            appended(old(out)@, final(out)@, old(self)@.tick(event).1),
            act@ == old(self)@.tick(event).2,
            final(self)@.wf(),
    {
        match event {
            TickEvent::Timer => self.tick_timer(out),
            TickEvent::Stepped(res) => self.tick_stepped(res, out),
        }
    }

    /// Whether `event` may be handled now: false exactly when it comes out
    /// of turn (a timer event while a step is awaited, a step report when
    /// none is) or when the scheduler's counter would overflow.
    pub fn accepts_tick(&self, event: TickEvent) -> (b: bool)
        requires
            self@.wf(),
        ensures
            b == self@.tick_ok(event),
    {
        match event {
            TickEvent::Timer => {
                if self.phase != TickPhase::Idle {
                    return false;
                }
                let mut probe = self.snapshot();
                let mut out: Vec<Effect> = Vec::new();
                let a = probe.tick_start(&mut out);
                let (run, _input) = probe.window_tick_begin(a);
                if run {
                    true
                } else {
                    probe.window_tick_end(a, None, &mut out);
                    probe.accepts_tick_schedule()
                }
            },
            TickEvent::Stepped(res) => match self.phase {
                TickPhase::ActiveStep(a) => {
                    let mut probe = self.snapshot();
                    probe.phase = TickPhase::Idle;
                    let mut out: Vec<Effect> = Vec::new();
                    probe.window_tick_end(a, Some(res), &mut out);
                    probe.accepts_tick_schedule()
                },
                TickPhase::ScheduledStep(_) => true,
                TickPhase::Idle => false,
            },
        }
    }
    /// A copy of the console.
    fn snapshot(&self) -> (s: Swim)
        requires
            self@.wf(),
        ensures
            s@ == self@,
    {
        let mut windows: Vec<SwimInterface> = Vec::new();
        let mut i: usize = 0;
        while i < self.windows.len()
            invariant
                self@.wf(),
                0 <= i <= self.windows@.len(),
                windows@.len() == i,
                forall|k: int| 0 <= k < i ==> (#[trigger] windows@[k])@ == self.windows@[k]@,
            decreases self.windows@.len() - i,
        {
            windows.push(self.windows[i].duplicate());
            i = i + 1;
        }
        let mut window_ticks: Vec<usize> = Vec::new();
        let mut j: usize = 0;
        while j < self.window_ticks.len()
            invariant
                0 <= j <= self.window_ticks@.len(),
                window_ticks@ =~= self.window_ticks@.subrange(0, j as int),
            decreases self.window_ticks@.len() - j,
        {
            window_ticks.push(self.window_ticks[j]);
            j = j + 1;
        }
        let s = Swim {
            windows,
            window_ticks,
            init: self.init,
            active_win: self.active_win,
            displaying_files: self.displaying_files,
            creating_file: self.creating_file,
            nextt: self.nextt,
            phase: self.phase,
        };
        assert(windows_view(s.windows@) =~= windows_view(self.windows@));
        assert(s.window_ticks@ =~= self.window_ticks@);
        s
    }
}

} // verus!
