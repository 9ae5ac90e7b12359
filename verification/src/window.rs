use vstd::prelude::*;
use vstd::utf8::{decode_utf8, valid_utf8};
use crate::screen::{
    blank_code, cursor_code, effects_view, emit, highlight_code, plot, plot_str, text_code,
    ColorCode, Color, Effect, EffectView,
};
use crate::window_spec::{
    CurrentSwim, TickStatus, WindowView, AVERAGE_NAME, AVERAGE_PROGRAM, HELLO_NAME,
    HELLO_PROGRAM, HIGHLIGHT_BLANK, NORMAL_BLANK, NUMS_NAME, NUMS_PROGRAM, PI_NAME, PI_PROGRAM,
    TEXT_CELLS, TEXT_ROWS, TITLE_OFFSET, TOP_WINDOW_ROW, WINDOW_HEIGHT, WINDOW_WIDTH,
    FILES_PER_ROW, FILE_CELL_WIDTH,
};

verus! {

/// `core::str::from_utf8`, owned. The standard library documents that it
/// succeeds exactly on valid UTF-8 and that the string then holds the
/// decoded characters; the contract says so over vstd's UTF-8 model.
#[verifier::external_body]
fn decode_utf8_bytes(bytes: &[u8]) -> (r: Option<String>)
    ensures
        r is Some <==> valid_utf8(bytes@),
        r is Some ==> r.unwrap()@ == decode_utf8(bytes@),
{
    match core::str::from_utf8(bytes) {
        Ok(s) => Some(s.to_string()),
        Err(_) => None,
    }
}

/// `out` grew by exactly the effects `s`.
pub open spec fn appended(before: Seq<Effect>, after: Seq<Effect>, s: Seq<EffectView>) -> bool {
    effects_view(after) == effects_view(before) + s
}

/// One window of the console: a text buffer shown through a 34 by 10 cell
/// viewport, a cursor, a file system (held by the host, listed here) and a
/// program that may run in it.
pub struct SwimInterface {
    text: Vec<char>,
    outputy: usize,
    inputy: usize,
    num_letters: usize,
    next_letter: usize,
    cursorx: usize,
    cursory: usize,
    startx: usize,
    starty: usize,
    height: usize,
    width: usize,
    id: char,
    init: bool,
    active: bool,
    files: Vec<String>,
    displaying_files: bool,
    running_file: bool,
    inpstring: Vec<char>,
    status: CurrentSwim,
    program_loaded: bool,
    active_file: usize,
    topi: usize,
}

/// The names of a file list, as character sequences.
pub open spec fn names_view(files: Seq<String>) -> Seq<Seq<char>> {
    files.map_values(|s: String| s@)
}

impl View for SwimInterface {
    type V = WindowView;

    closed spec fn view(&self) -> WindowView {
        WindowView {
            text: self.text@,
            outputy: self.outputy,
            inputy: self.inputy,
            num_letters: self.num_letters,
            next_letter: self.next_letter,
            cursorx: self.cursorx,
            cursory: self.cursory,
            startx: self.startx,
            starty: self.starty,
            height: self.height,
            width: self.width,
            id: self.id,
            init: self.init,
            active: self.active,
            files: names_view(self.files@),
            displaying_files: self.displaying_files,
            running_file: self.running_file,
            inpstring: self.inpstring@,
            status: self.status,
            program_loaded: self.program_loaded,
            active_file: self.active_file,
            topi: self.topi,
        }
    }
}

impl Default for SwimInterface {
    fn default() -> (w: SwimInterface)
        ensures
            w@ == WindowView::initial(),
            w@.wf(),
    {
        let text = vec![' '; TEXT_CELLS];
        let w = SwimInterface {
            text,
            outputy: 2,
            inputy: 2,
            num_letters: 1,
            next_letter: 1,
            cursorx: 1,
            cursory: 2,
            startx: 1,
            starty: 2,
            width: WINDOW_WIDTH,
            height: WINDOW_HEIGHT,
            id: ' ',
            init: false,
            active: false,
            files: Vec::new(),
            displaying_files: true,
            running_file: false,
            inpstring: Vec::new(),
            status: CurrentSwim::DisplayingFiles,
            program_loaded: false,
            active_file: 0,
            topi: 0,
        };
        assert(w.text@ =~= Seq::new(TEXT_CELLS as nat, |i: int| ' '));
        assert(names_view(w.files@) =~= seq![]);
        w
    }
}

impl SwimInterface {
    /// Draws the cursor.
    pub fn show_cursor(&self, out: &mut Vec<Effect>)
        ensures
            appended(old(out)@, final(out)@, self@.show_cursor()),
    {
        plot(out, ' ', self.cursorx, self.cursory, cursor_code());
        assert(effects_view(out@) =~= effects_view(old(out)@) + self@.show_cursor());
    }

    /// Moves the cursor to `(x, y)` and draws it there.
    pub fn move_cursor(&mut self, x: usize, y: usize, out: &mut Vec<Effect>)
        requires
            old(self)@.layout_ok(),
            old(self)@.startx <= x < old(self)@.startx + old(self)@.width,
            y < old(self)@.starty + old(self)@.height,
        ensures
            final(self)@ == old(self)@.move_cursor(x, y).0,
            appended(old(out)@, final(out)@, old(self)@.move_cursor(x, y).1),
            final(self)@.wf(),
    {
        self.cursorx = x;
        self.cursory = y;
        self.show_cursor(out);
    }
    /// Draws the text area column by column: each cell blank, or from the
    /// buffer. The window's last column is left out.
    fn draw_area(&self, blank: bool, out: &mut Vec<Effect>)
        requires
            self@.wf(),
        ensures
            appended(old(out)@, final(out)@, self@.area_columns(blank, self@.right())),
    {
        let x_end = self.startx + self.width - 1;
        let y_end = self.starty + self.height;
        let mut x = self.startx;
        while x < x_end
            invariant
                self@.wf(),
                x_end == self@.right(),
                y_end == self@.starty + self@.height,
                self.startx <= x <= x_end,
                appended(old(out)@, out@, self@.area_columns(blank, x as int)),
            decreases x_end - x,
        {
            let ghost before = out@;
            let mut y = self.starty;
            while y < y_end
                invariant
                    self@.wf(),
                    x_end == self@.right(),
                    y_end == self@.starty + self@.height,
                    self.startx <= x < x_end,
                    self.starty <= y <= y_end,
                    appended(before, out@, self@.area_column(blank, x as int, y as int)),
                decreases y_end - y,
            {
                let ch = if blank {
                    ' '
                } else {
                    self.text[(x - self.startx) * TEXT_ROWS + (y - self.starty + self.topi)]
                };
                let color = if blank {
                    blank_code()
                } else {
                    text_code()
                };
                plot(out, ch, x, y, color);
                assert(effects_view(out@) =~= effects_view(before) + self@.area_column(
                    blank,
                    x as int,
                    y + 1,
                ));
                y = y + 1;
            }
            assert(effects_view(out@) =~= effects_view(old(out)@) + self@.area_columns(
                blank,
                x + 1,
            ));
            x = x + 1;
        }
    }

    /// Redraws the text area from the buffer.
    pub fn printscreen(&self, out: &mut Vec<Effect>)
        requires
            self@.wf(),
        ensures
            appended(old(out)@, final(out)@, self@.printscreen()),
    {
        self.draw_area(false, out);
    }

    /// Erases the text area.
    pub fn clear_screen(&self, out: &mut Vec<Effect>)
        requires
            self@.wf(),
        ensures
            appended(old(out)@, final(out)@, self@.clear_screen()),
    {
        self.draw_area(true, out);
    }
    /// Erases the top border above the window's columns. (The row argument
    /// is not used: the border row is.)
    pub fn clear_line(&self, row: usize, out: &mut Vec<Effect>)
        requires
            self@.wf(),
        ensures
            appended(old(out)@, final(out)@, self@.clear_line()),
    {
        let x_end = self.startx + self.width;
        let mut x = self.startx;
        while x < x_end
            invariant
                self@.wf(),
                x_end == self@.startx + self@.width,
                self.startx <= x <= x_end,
                appended(old(out)@, out@, self@.clear_line_to(x as int)),
            decreases x_end - x,
        {
            plot(out, ' ', x, self.starty - 1, blank_code());
            assert(effects_view(out@) =~= effects_view(old(out)@) + self@.clear_line_to(x + 1));
            x = x + 1;
        }
    }

    /// Draws the border in `color`, then the title.
    fn border(&self, color: ColorCode, out: &mut Vec<Effect>)
        requires
            self@.wf(),
        ensures
            appended(old(out)@, final(out)@, self@.border(color)),
    {
        let x_end = self.startx + self.width;
        let mut x = self.startx - 1;
        while x < x_end
            invariant
                self@.wf(),
                x_end == self@.startx + self@.width,
                self.startx - 1 <= x <= x_end,
                appended(old(out)@, out@, self@.border_rows(color, x as int)),
            decreases x_end - x,
        {
            if self.starty != TOP_WINDOW_ROW || (x != self.startx + TITLE_OFFSET && x
                != self.startx + TITLE_OFFSET + 1) {
                plot(out, '.', x, self.starty - 1, color);
                plot(out, '.', x, self.starty + self.height, color);
            }
            assert(effects_view(out@) =~= effects_view(old(out)@) + self@.border_rows(
                color,
                x + 1,
            ));
            x = x + 1;
        }
        let ghost rows = out@;
        let y_end = self.starty + self.height;
        let mut y = self.starty - 1;
        while y < y_end
            invariant
                self@.wf(),
                y_end == self@.starty + self@.height,
                self.starty - 1 <= y <= y_end,
                appended(rows, out@, self@.border_columns(color, y as int)),
            decreases y_end - y,
        {
            plot(out, '.', self.startx - 1, y, color);
            plot(out, '.', self.startx + self.width, y, color);
            assert(effects_view(out@) =~= effects_view(rows) + self@.border_columns(color, y + 1));
            y = y + 1;
        }
        plot(out, 'F', self.startx + TITLE_OFFSET, self.starty - 1, text_code());
        plot(out, self.id, self.startx + TITLE_OFFSET + 1, self.starty - 1, text_code());
        assert(effects_view(out@) =~= effects_view(old(out)@) + self@.border(color));
    }

    /// Draws the border of the window that has the focus.
    pub fn active_border(&self, out: &mut Vec<Effect>)
        requires
            self@.wf(),
        ensures
            appended(
                old(out)@,
                final(out)@,
                self@.border(crate::screen::active_border_color()),
            ),
    {
        self.border(ColorCode::new(Color::White, Color::Magenta), out);
    }

    /// Draws the border of a window without the focus.
    pub fn normal_border(&self, out: &mut Vec<Effect>)
        requires
            self@.wf(),
        ensures
            appended(
                old(out)@,
                final(out)@,
                self@.border(crate::screen::normal_border_color()),
            ),
    {
        self.border(ColorCode::new(Color::White, Color::Black), out);
    }

    /// Lists the file names, three to a row, the active one highlighted.
    pub fn display_files(&self, out: &mut Vec<Effect>)
        requires
            self@.wf(),
        ensures
            appended(old(out)@, final(out)@, self@.display_files()),
    {
        let n = self.files.len();
        let mut c = self.startx;
        let mut r = self.starty;
        let mut f: usize = 0;
        while f < n
            invariant
                self@.wf(),
                n == self@.files.len(),
                0 <= f <= n,
                c == self@.file_col(f as int),
                r == self@.file_row(f as int),
                appended(old(out)@, out@, self@.file_list(f as int)),
            decreases n - f,
        {
            let name = self.files[f].clone();
            assert(name@ == self@.files[f as int]);
            if f == self.active_file {
                plot_str(out, String::from_str(HIGHLIGHT_BLANK), c, r, highlight_code());
                plot_str(out, name, c, r, highlight_code());
            } else {
                plot_str(out, String::from_str(NORMAL_BLANK), c, r, blank_code());
                plot_str(out, name, c, r, text_code());
            }
            assert(effects_view(out@) =~= effects_view(old(out)@) + self@.file_list(f + 1));
            if (f + 1) % FILES_PER_ROW == 0 {
                r = r + 1;
                c = self.startx;
            } else {
                c = c + FILE_CELL_WIDTH;
            }
            f = f + 1;
        }
    }
    /// Selects the next (`pos`) or the previous file, wrapping around.
    pub fn change_active_file(&mut self, pos: bool)
        requires
            old(self)@.wf(),
            old(self)@.files.len() > 0,
        ensures
            final(self)@ == old(self)@.change_active_file(pos),
            final(self)@.wf(),
    {
        let num = self.files.len();
        if pos {
            if self.active_file < num - 1 {
                self.active_file = self.active_file + 1;
            } else {
                self.active_file = 0;
            }
        } else {
            if self.active_file != 0 {
                self.active_file = self.active_file - 1;
            } else {
                self.active_file = num - 1;
            }
        }
    }

    /// Enter while editing: the cursor goes down a line, or the text
    /// scrolls up one row when the cursor is on the last row.
    pub fn enter(&mut self, out: &mut Vec<Effect>)
        requires
            old(self)@.wf(),
            old(self)@.enter_ok(),
        ensures
            final(self)@ == old(self)@.enter().0,
            appended(old(out)@, final(out)@, old(self)@.enter().1),
            final(self)@.wf(),
    {
        if self.cursory != self.starty + self.height - 1 {
            plot(out, ' ', self.cursorx, self.cursory, blank_code());
            let x = self.startx;
            let y = self.cursory + 1;
            self.move_cursor(x, y, out);
            assert(effects_view(out@) =~= effects_view(old(out)@) + old(self)@.enter().1);
        } else {
            self.topi = self.topi + 1;
            self.printscreen(out);
        }
    }

    /// Enter while a program waits for input: the first `num_letters - 1`
    /// characters of the input row become the program's input, and the
    /// program runs again.
    pub fn enterinput(&mut self)
        requires
            old(self)@.wf(),
            old(self)@.enterinput_ok(),
        ensures
            final(self)@ == old(self)@.enterinput(),
            final(self)@.wf(),
    {
        if self.status == CurrentSwim::AwaitingInput {
            let n = self.num_letters - 1;
            let row = self.inputy - self.starty + self.topi;
            let mut instring: Vec<char> = Vec::new();
            let mut i: usize = 0;
            while i < n
                invariant
                    self@.wf(),
                    n == self@.num_letters - 1,
                    n <= crate::window_spec::INPUT_CAPACITY,
                    row == self@.text_row(self@.inputy as int),
                    0 <= i <= n,
                    instring@ =~= Seq::new(i as nat, |k: int| self@.cell(k, row as int)),
                decreases n - i,
            {
                instring.push(self.text[i * TEXT_ROWS + row]);
                i = i + 1;
            }
            assert(instring@ =~= old(self)@.input_line());
            self.cursorx = self.startx;
            self.cursory = self.starty;
            self.num_letters = 0;
            self.status = CurrentSwim::Running;
            self.running_file = true;
            self.inpstring = instring;
        }
    }

    /// Types `key` at the cursor (on the input row when a program waits
    /// for input) and advances the cursor.
    pub fn add_letter(&mut self, key: char, out: &mut Vec<Effect>)
        requires
            old(self)@.wf(),
            old(self)@.add_letter_ok(),
        ensures
            final(self)@ == old(self)@.add_letter(key).0,
            appended(old(out)@, final(out)@, old(self)@.add_letter(key).1),
            final(self)@.wf(),
    {
        if self.status == CurrentSwim::AwaitingInput {
            self.cursory = self.inputy;
            self.num_letters = self.num_letters + 1;
        }
        if self.cursory < self.starty + self.height && self.cursorx < self.startx + self.width {
            plot(out, key, self.cursorx, self.cursory, text_code());
            let idx = (self.cursorx - self.startx) * TEXT_ROWS + (self.cursory - self.starty
                + self.topi);
            self.text.set(idx, key);
            if self.cursorx < self.startx + self.width - 1 {
                self.cursorx = self.cursorx + 1;
            } else if self.cursory != self.starty + self.height - 1 {
                let x = self.startx;
                let y = self.cursory + 1;
                self.move_cursor(x, y, out);
                self.show_cursor(out);
            }
        }
        self.num_letters = self.num_letters + 1;
        assert(effects_view(out@) =~= effects_view(old(out)@) + old(self)@.add_letter(key).1);
    }

    /// Backspace while editing: the cursor steps back (to the end of the
    /// previous row from the first column) and the cell it leaves is erased.
    pub fn backspace(&mut self, out: &mut Vec<Effect>)
        requires
            old(self)@.wf(),
            old(self)@.cursor_inside(),
        ensures
            final(self)@ == old(self)@.backspace().0,
            appended(old(out)@, final(out)@, old(self)@.backspace().1),
            final(self)@.wf(),
    {
        if self.cursorx == self.startx && self.cursory != self.starty {
            plot(out, ' ', self.cursorx, self.cursory, blank_code());
            let x = self.startx + self.width - 1;
            let y = self.cursory - 1;
            self.move_cursor(x, y, out);
        } else if self.cursorx != self.startx {
            plot(out, ' ', self.cursorx, self.cursory, blank_code());
            let x = self.cursorx - 1;
            let y = self.cursory;
            self.move_cursor(x, y, out);
            self.show_cursor(out);
            let idx = (self.cursorx - self.startx) * TEXT_ROWS + (self.cursory - self.starty
                + self.topi);
            self.text.set(idx, ' ');
        }
        assert(effects_view(out@) =~= effects_view(old(out)@) + old(self)@.backspace().1);
    }

    /// Moves the cursor right (`pos`) or left, wrapping around the row, and
    /// redraws the cell it leaves.
    pub fn sidescroll(&mut self, pos: bool, out: &mut Vec<Effect>)
        requires
            old(self)@.wf(),
            old(self)@.cursor_inside(),
        ensures
            final(self)@ == old(self)@.sidescroll(pos).0,
            appended(old(out)@, final(out)@, old(self)@.sidescroll(pos).1),
            final(self)@.wf(),
    {
        let mut newx = self.cursorx;
        if pos {
            if self.cursorx != self.startx + self.width - 1 {
                newx = newx + 1;
            } else {
                newx = self.startx;
            }
        } else {
            if self.cursorx != self.startx {
                newx = newx - 1;
            } else {
                newx = self.startx + self.width - 1;
            }
        }
        let shown = self.text[(self.cursorx - self.startx) * TEXT_ROWS + (self.cursory
            - self.starty + self.topi)];
        plot(out, shown, self.cursorx, self.cursory, text_code());
        let y = self.cursory;
        self.move_cursor(newx, y, out);
        assert(effects_view(out@) =~= effects_view(old(out)@) + old(self)@.sidescroll(pos).1);
    }

    /// Moves the cursor down (`pos`) or up and redraws the cell it leaves;
    /// at the window's edge the text scrolls instead, while the buffer has
    /// rows left to show.
    pub fn verticalscroll(&mut self, pos: bool, out: &mut Vec<Effect>)
        requires
            old(self)@.wf(),
            old(self)@.cursor_inside(),
        ensures
            final(self)@ == old(self)@.verticalscroll(pos).0,
            appended(old(out)@, final(out)@, old(self)@.verticalscroll(pos).1),
            final(self)@.wf(),
    {
        let shown = self.text[(self.cursorx - self.startx) * TEXT_ROWS + (self.cursory
            - self.starty + self.topi)];
        if pos {
            if self.cursory != self.starty + self.height - 1 {
                plot(out, shown, self.cursorx, self.cursory, text_code());
                let x = self.cursorx;
                let y = self.cursory + 1;
                self.move_cursor(x, y, out);
            } else if self.topi != TEXT_ROWS - self.height {
                self.topi = self.topi + 1;
                self.printscreen(out);
            }
        } else {
            if self.cursory != self.starty {
                plot(out, shown, self.cursorx, self.cursory, text_code());
                let x = self.cursorx;
                let y = self.cursory - 1;
                self.move_cursor(x, y, out);
            } else if self.topi != 0 {
                self.topi = self.topi - 1;
                self.printscreen(out);
            }
        }
        assert(effects_view(out@) =~= effects_view(old(out)@) + old(self)@.verticalscroll(
            pos,
        ).1);
    }
    /// Creates the starting files in the file system of window `slot` and
    /// lists them.
    fn create_files(&mut self, slot: usize, out: &mut Vec<Effect>)
        requires
            old(self)@.wf(),
            old(self)@.files.len() == 0,
        ensures
            final(self)@ == old(self)@.create_files(slot).0,
            appended(old(out)@, final(out)@, old(self)@.create_files(slot).1),
            final(self)@.wf(),
    {
        emit(
            out,
            Effect::WriteFile {
                window: slot,
                name: String::from_str(HELLO_NAME),
                contents: String::from_str(HELLO_PROGRAM),
            },
        );
        self.files.push(String::from_str(HELLO_NAME));
        emit(
            out,
            Effect::WriteFile {
                window: slot,
                name: String::from_str(NUMS_NAME),
                contents: String::from_str(NUMS_PROGRAM),
            },
        );
        self.files.push(String::from_str(NUMS_NAME));
        emit(
            out,
            Effect::WriteFile {
                window: slot,
                name: String::from_str(AVERAGE_NAME),
                contents: String::from_str(AVERAGE_PROGRAM),
            },
        );
        self.files.push(String::from_str(AVERAGE_NAME));
        emit(
            out,
            Effect::WriteFile {
                window: slot,
                name: String::from_str(PI_NAME),
                contents: String::from_str(PI_PROGRAM),
            },
        );
        self.files.push(String::from_str(PI_NAME));
        assert(names_view(self.files@) =~= old(self)@.files
            + crate::window_spec::default_file_names());
        assert(effects_view(out@) =~= effects_view(old(out)@)
            + crate::window_spec::default_file_writes(slot));
    }

    /// Sets the window up as window `slot`, titled `am`: cursor home, the
    /// border, and (when it shows files) its starting files and their list.
    pub fn initialize(&mut self, am: char, slot: usize, out: &mut Vec<Effect>)
        requires
            old(self)@.layout_ok(),
            old(self)@.initialize_ok(),
        ensures
            final(self)@ == old(self)@.initialize(am, slot).0,
            appended(old(out)@, final(out)@, old(self)@.initialize(am, slot).1),
            final(self)@.wf(),
    {
        self.cursorx = self.startx;
        self.id = am;
        self.cursory = self.starty;
        self.normal_border(out);
        self.init = true;
        if self.displaying_files {
            self.create_files(slot, out);
            self.display_files(out);
        }
        assert(effects_view(out@) =~= effects_view(old(out)@) + old(self)@.initialize(
            am,
            slot,
        ).1);
    }

    /// Loads the active file of window `slot` as the window's program and
    /// lets it run.
    pub fn run_active_file(&mut self, slot: usize, out: &mut Vec<Effect>)
        requires
            old(self)@.wf(),
            old(self)@.active_file < old(self)@.files.len(),
        ensures
            final(self)@ == old(self)@.run_active_file(slot).0,
            appended(old(out)@, final(out)@, old(self)@.run_active_file(slot).1),
            final(self)@.wf(),
    {
        let name = self.files[self.active_file].clone();
        emit(out, Effect::RunFile { window: slot, name });
        self.status = CurrentSwim::Running;
        self.outputy = 0;
        self.cursory = 0;
        self.cursorx = 0;
        self.num_letters = 0;
        self.next_letter = 0;
        self.running_file = true;
        self.cursorx = self.startx;
        self.program_loaded = true;
        assert(effects_view(out@) =~= effects_view(old(out)@) + old(self)@.run_active_file(
            slot,
        ).1);
    }

    /// First half of a timer tick. Returns whether the window's program is
    /// to run one step now, and the input to hand it before the step (the
    /// pending input, which the window then clears).
    pub fn tick_begin(&mut self) -> (r: (bool, Option<Vec<char>>))
        requires
            old(self)@.wf(),
        ensures
            final(self)@ == old(self)@.tick_begin().0,
            r.0 == old(self)@.tick_begin().1,
            r.1 is Some <==> old(self)@.tick_begin().2 is Some,
            r.1 is Some ==> r.1.unwrap()@ == old(self)@.tick_begin().2.unwrap(),
            final(self)@.wf(),
    {
        if self.status == CurrentSwim::Running && self.program_loaded {
            if self.inpstring.len() > 0 {
                let mut input: Vec<char> = Vec::new();
                std::mem::swap(&mut input, &mut self.inpstring);
                assert(self.inpstring@ =~= seq![]);
                (true, Some(input))
            } else {
                (true, None)
            }
        } else {
            (false, None)
        }
    }

    /// Second half of a timer tick, given what the program reported if it
    /// ran a step: a finished program leaves its output shown, a program
    /// that asks for input gets an input line. A window showing its files
    /// redraws the list.
    pub fn tick_end(&mut self, res: Option<TickStatus>, out: &mut Vec<Effect>)
        requires
            old(self)@.wf(),
        ensures
            final(self)@ == old(self)@.tick_end(res).0,
            appended(old(out)@, final(out)@, old(self)@.tick_end(res).1),
            final(self)@.wf(),
    {
        match res {
            Some(TickStatus::Finished) => {
                self.status = CurrentSwim::DisplayingOutput;
                self.running_file = false;
            },
            Some(TickStatus::AwaitInput) => {
                self.status = CurrentSwim::AwaitingInput;
                self.num_letters = 0;
                self.cursory = self.starty + 1;
                self.next_letter = 0;
            },
            _ => {},
        }
        if self.status == CurrentSwim::AwaitingInput {
            self.outputy = 0;
        }
        if self.status == CurrentSwim::DisplayingFiles {
            self.display_files(out);
        } else {
            assert(effects_view(out@) =~= effects_view(old(out)@) + seq![]);
        }
    }

    /// Output of the window's program: text that is valid UTF-8 replaces
    /// what the text area shows, and the next input goes below it.
    pub fn print(&mut self, chars: &[u8], out: &mut Vec<Effect>)
        requires
            old(self)@.wf(),
            old(self)@.outputy < usize::MAX,
        ensures
            final(self)@ == old(self)@.print(chars@).0,
            appended(old(out)@, final(out)@, old(self)@.print(chars@).1),
            final(self)@.wf(),
    {
        match decode_utf8_bytes(chars) {
            Some(output) => {
                let row = self.starty;
                let col = self.startx;
                self.clear_screen(out);
                plot_str(out, output, col, row, text_code());
                self.outputy = self.outputy + 1;
                self.inputy = row + 1;
                assert(effects_view(out@) =~= effects_view(old(out)@) + old(self)@.print(
                    chars@,
                ).1);
            },
            None => {
                assert(effects_view(out@) =~= effects_view(old(out)@) + seq![]);
            },
        }
    }
    /// What the window is doing.
    pub fn status(&self) -> (s: CurrentSwim)
        ensures
            s == self@.status,
    {
        self.status
    }

    /// Sets what the window is doing.
    pub fn set_status(&mut self, status: CurrentSwim)
        requires
            old(self)@.wf(),
        ensures
            final(self)@ == (WindowView { status, ..old(self)@ }),
            final(self)@.wf(),
    {
        self.status = status;
    }

    /// Marks the window as having the focus or not.
    pub fn set_active(&mut self, active: bool)
        requires
            old(self)@.wf(),
        ensures
            final(self)@ == (WindowView { active, ..old(self)@ }),
            final(self)@.wf(),
    {
        self.active = active;
    }

    /// Places the window's left edge.
    pub fn set_startx(&mut self, startx: usize)
        ensures
            final(self)@ == (WindowView { startx, ..old(self)@ }),
    {
        self.startx = startx;
    }

    /// Places the window's top edge.
    pub fn set_starty(&mut self, starty: usize)
        ensures
            final(self)@ == (WindowView { starty, ..old(self)@ }),
    {
        self.starty = starty;
    }

    /// Sets the screen row where input is typed.
    pub fn set_inputy(&mut self, inputy: usize)
        ensures
            final(self)@ == (WindowView { inputy, ..old(self)@ }),
    {
        self.inputy = inputy;
    }

    /// Sets the output row counter.
    pub fn set_outputy(&mut self, outputy: usize)
        ensures
            final(self)@ == (WindowView { outputy, ..old(self)@ }),
    {
        self.outputy = outputy;
    }

    /// The cursor's column.
    pub fn cursorx(&self) -> (x: usize)
        ensures
            x == self@.cursorx,
    {
        self.cursorx
    }

    /// The cursor's row.
    pub fn cursory(&self) -> (y: usize)
        ensures
            y == self@.cursory,
    {
        self.cursory
    }

    /// The row of the text buffer shown on the window's top row.
    pub fn topi(&self) -> (t: usize)
        ensures
            t == self@.topi,
    {
        self.topi
    }

    /// The index of the highlighted file.
    pub fn active_file(&self) -> (f: usize)
        ensures
            f == self@.active_file,
    {
        self.active_file
    }

    /// How many files the window lists.
    pub fn file_count(&self) -> (n: usize)
        ensures
            n == self@.files.len(),
    {
        self.files.len()
    }

    /// The letter counter of the input line.
    pub fn num_letters(&self) -> (n: usize)
        ensures
            n == self@.num_letters,
    {
        self.num_letters
    }

    /// The output row counter.
    pub fn outputy(&self) -> (n: usize)
        ensures
            n == self@.outputy,
    {
        self.outputy
    }

    /// The character at column `x`, row `y` of the text buffer.
    pub fn text_at(&self, x: usize, y: usize) -> (c: char)
        requires
            self@.wf(),
            x < crate::window_spec::TEXT_COLUMNS,
            y < TEXT_ROWS,
        ensures
            c == self@.cell(x as int, y as int),
    {
        self.text[x * TEXT_ROWS + y]
    }

    /// The pending input of the window's program.
    pub fn pending_input(&self) -> (s: Vec<char>)
        ensures
            s@ == self@.inpstring,
    {
        let mut s: Vec<char> = Vec::new();
        let mut i: usize = 0;
        while i < self.inpstring.len()
            invariant
                0 <= i <= self.inpstring@.len(),
                s@ =~= self.inpstring@.subrange(0, i as int),
            decreases self.inpstring@.len() - i,
        {
            s.push(self.inpstring[i]);
            i = i + 1;
        }
        s
    }
    /// The window's left column.
    pub fn startx(&self) -> (x: usize)
        ensures
            x == self@.startx,
    {
        self.startx
    }

    /// The window's top row.
    pub fn starty(&self) -> (y: usize)
        ensures
            y == self@.starty,
    {
        self.starty
    }

    /// The screen row where input is typed.
    pub fn inputy(&self) -> (y: usize)
        ensures
            y == self@.inputy,
    {
        self.inputy
    }

    /// The window's title character.
    pub fn id(&self) -> (c: char)
        ensures
            c == self@.id,
    {
        self.id
    }

    /// Whether the window is marked as having the focus.
    pub fn is_active(&self) -> (b: bool)
        ensures
            b == self@.active,
    {
        self.active
    }

    /// Whether the window holds a program.
    pub fn program_loaded(&self) -> (b: bool)
        ensures
            b == self@.program_loaded,
    {
        self.program_loaded
    }

    /// Whether a program was started and has not finished.
    pub fn running_file(&self) -> (b: bool)
        ensures
            b == self@.running_file,
    {
        self.running_file
    }

    /// The name of the `i`-th file.
    pub fn file_name(&self, i: usize) -> (name: String)
        requires
            i < self@.files.len(),
        ensures
            name@ == self@.files[i as int],
    {
        self.files[i].clone()
    }
    /// A copy of the window.
    pub fn duplicate(&self) -> (w: SwimInterface)
        ensures
            w@ == self@,
    {
        let mut text: Vec<char> = Vec::new();
        let mut i: usize = 0;
        while i < self.text.len()
            invariant
                0 <= i <= self.text@.len(),
                text@ =~= self.text@.subrange(0, i as int),
            decreases self.text@.len() - i,
        {
            text.push(self.text[i]);
            i = i + 1;
        }
        let mut files: Vec<String> = Vec::new();
        let mut j: usize = 0;
        while j < self.files.len()
            invariant
                0 <= j <= self.files@.len(),
                files@.len() == j,
                forall|k: int| 0 <= k < j ==> (#[trigger] files@[k])@ == self.files@[k]@,
            decreases self.files@.len() - j,
        {
            files.push(self.files[j].clone());
            j = j + 1;
        }
        let w = SwimInterface {
            text,
            outputy: self.outputy,
            inputy: self.inputy,
            num_letters: self.num_letters,
            next_letter: self.next_letter,
            cursorx: self.cursorx,
            cursory: self.cursory,
            startx: self.startx,
            starty: self.starty,
            height: self.height,
            width: self.width,
            id: self.id,
            init: self.init,
            active: self.active,
            files,
            displaying_files: self.displaying_files,
            running_file: self.running_file,
            inpstring: self.pending_input(),
            status: self.status,
            program_loaded: self.program_loaded,
            active_file: self.active_file,
            topi: self.topi,
        };
        assert(w.text@ =~= self.text@);
        assert(names_view(w.files@) =~= names_view(self.files@));
        w
    }
}

} // verus!
