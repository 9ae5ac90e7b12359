use vstd::prelude::*;
use vstd::utf8::{decode_utf8, valid_utf8};
use crate::screen::{
    blank_color, cursor_color, highlight_color, normal_border_color,
    plot_at, text_color, ColorCode, EffectView, BUFFER_HEIGHT, BUFFER_WIDTH,
};

verus! {

/// The text buffer holds `TEXT_COLUMNS` columns of `TEXT_ROWS` characters.
pub const TEXT_COLUMNS: usize = 35;

pub const TEXT_ROWS: usize = 40;

pub const TEXT_CELLS: usize = 1400;

/// Every window shows `WINDOW_WIDTH` columns and `WINDOW_HEIGHT` rows.
pub const WINDOW_WIDTH: usize = 34;

pub const WINDOW_HEIGHT: usize = 10;

/// How many characters a line of program input holds (half the screen
/// width left of the tick counters, less the border).
pub const INPUT_CAPACITY: usize = 33;

/// How many files a window's file system stores.
pub const MAX_FILES_STORED: usize = 30;

/// File names are listed three to a row, eleven columns apart.
pub const FILES_PER_ROW: usize = 3;

pub const FILE_CELL_WIDTH: usize = 11;

/// Column, from the window's left edge, of the window's title "F<id>".
pub const TITLE_OFFSET: usize = 17;

/// The row of the top screen border, which the title of the upper windows
/// interrupts.
pub const TOP_WINDOW_ROW: usize = 2;

/// Blanks that erase a highlighted file name, and those that erase another.
pub const HIGHLIGHT_BLANK: &'static str = "           ";

pub const NORMAL_BLANK: &'static str = "            ";

/// The programs that every window's file system starts with.
pub const HELLO_NAME: &'static str = "hello";

pub const HELLO_PROGRAM: &'static str = "print(\"Hello, world!\")";

pub const NUMS_NAME: &'static str = "nums";

pub const NUMS_PROGRAM: &'static str = "print(1)\nprint(257)\n";

pub const AVERAGE_NAME: &'static str = "average";

pub const AVERAGE_PROGRAM: &'static str = "sum := 0\ncount := 0\naveraging := true\nwhile averaging {\n    num := input(\"Enter a number:\")\n    if (num == \"quit\") {\n        averaging := false\n    } else {\n        sum := (sum + num)\n        count := (count + 1)\n    }\n}\nprint((sum / count))\")";

pub const PI_NAME: &'static str = "pi";

pub const PI_PROGRAM: &'static str = "sum := 0\ni := 0\nneg := false\nterms := input(\"Num terms:\")\nwhile (i < terms) {\n    term := (1.0 / ((2.0 * i) + 1.0))\n    if neg {\n        term := -term\n    }\n    sum := (sum + term)\n    neg := not neg\n    i := (i + 1)\n}\nprint((4 * sum))";

/// What a window is doing.
#[derive(Clone, Copy, PartialEq, Eq, Structural, Debug)]
pub enum CurrentSwim {
    Running,
    DisplayingFiles,
    EditingFiles,
    AwaitingInput,
    DisplayingOutput,
}

/// What a program reports after one step of the interpreter.
#[derive(Clone, Copy, PartialEq, Eq, Structural, Debug)]
pub enum TickStatus {
    Continuing,
    Finished,
    AwaitInput,
}

/// The state of one window, as values.
///
/// `text` is the window's character buffer, column by column: the character
/// of column `x` and row `y` is `text[x * TEXT_ROWS + y]`. `files` lists the
/// names in the window's file system, in the order they were created.
/// `program_loaded` says whether the window holds a program to run.
pub struct WindowView {
    pub text: Seq<char>,
    pub outputy: usize,
    pub inputy: usize,
    pub num_letters: usize,
    pub next_letter: usize,
    pub cursorx: usize,
    pub cursory: usize,
    pub startx: usize,
    pub starty: usize,
    pub height: usize,
    pub width: usize,
    pub id: char,
    pub init: bool,
    pub active: bool,
    pub files: Seq<Seq<char>>,
    pub displaying_files: bool,
    pub running_file: bool,
    pub inpstring: Seq<char>,
    pub status: CurrentSwim,
    pub program_loaded: bool,
    pub active_file: usize,
    pub topi: usize,
}

/// Position in the text buffer of column `x`, row `y`.
pub open spec fn cell_index(x: int, y: int) -> int {
    x * TEXT_ROWS + y
}

/// The names of the files every window creates, in order.
pub open spec fn default_file_names() -> Seq<Seq<char>> {
    seq![HELLO_NAME@, NUMS_NAME@, AVERAGE_NAME@, PI_NAME@]
}

/// The requests that create the starting files of window `slot`.
pub open spec fn default_file_writes(slot: usize) -> Seq<EffectView> {
    seq![
        EffectView::WriteFile { window: slot, name: HELLO_NAME@, contents: HELLO_PROGRAM@ },
        EffectView::WriteFile { window: slot, name: NUMS_NAME@, contents: NUMS_PROGRAM@ },
        EffectView::WriteFile { window: slot, name: AVERAGE_NAME@, contents: AVERAGE_PROGRAM@ },
        EffectView::WriteFile { window: slot, name: PI_NAME@, contents: PI_PROGRAM@ },
    ]
}

impl WindowView {
    /// A new window: blank text, cursor at the top left corner of the upper
    /// left window, showing its (empty) file list.
    pub open spec fn initial() -> WindowView {
        WindowView {
            text: Seq::new(TEXT_CELLS as nat, |i: int| ' '),
            outputy: 2,
            inputy: 2,
            num_letters: 1,
            next_letter: 1,
            cursorx: 1,
            cursory: 2,
            startx: 1,
            starty: 2,
            height: WINDOW_HEIGHT,
            width: WINDOW_WIDTH,
            id: ' ',
            init: false,
            active: false,
            files: seq![],
            displaying_files: true,
            running_file: false,
            inpstring: seq![],
            status: CurrentSwim::DisplayingFiles,
            program_loaded: false,
            active_file: 0,
            topi: 0,
        }
    }

    /// The character at column `x`, row `y` of the text buffer.
    pub open spec fn cell(self, x: int, y: int) -> char {
        self.text[cell_index(x, y)]
    }

    /// The last screen row inside the window.
    pub open spec fn bottom(self) -> int {
        self.starty + self.height - 1
    }

    /// The last screen column inside the window.
    pub open spec fn right(self) -> int {
        self.startx + self.width - 1
    }

    /// The row of the text buffer that screen row `y` shows.
    pub open spec fn text_row(self, y: int) -> int {
        y - self.starty + self.topi
    }

    /// The character under screen cell `(x, y)`.
    pub open spec fn shown(self, x: int, y: int) -> char {
        self.cell(x - self.startx, self.text_row(y))
    }

    /// The window's place, size and buffers fit the screen and each other.
    pub open spec fn layout_ok(self) -> bool {
        &&& self.text.len() == TEXT_CELLS
        &&& self.width == WINDOW_WIDTH
        &&& self.height == WINDOW_HEIGHT
        &&& 1 <= self.startx
        &&& self.startx + self.width < BUFFER_WIDTH
        &&& 1 <= self.starty
        &&& self.starty + self.height < BUFFER_HEIGHT
        &&& self.topi + self.height <= TEXT_ROWS
        &&& self.starty <= self.inputy < self.starty + self.height
        &&& self.files.len() <= MAX_FILES_STORED
        &&& (self.active_file < self.files.len() || self.active_file == 0)
        &&& self.inpstring.len() <= INPUT_CAPACITY
    }

    /// The invariant of a window: its layout holds, the cursor stands in one
    /// of the window's columns and no lower than its last row.
    pub open spec fn wf(self) -> bool {
        &&& self.layout_ok()
        &&& self.startx <= self.cursorx < self.startx + self.width
        &&& self.cursory < self.starty + self.height
    }

    /// The cursor stands inside the window.
    pub open spec fn cursor_inside(self) -> bool {
        self.starty <= self.cursory
    }

    // ------------------------------------------------------------------
    // Drawing
    // ------------------------------------------------------------------
    /// Drawing the cursor: a white cell.
    pub open spec fn show_cursor(self) -> Seq<EffectView> {
        seq![plot_at(' ', self.cursorx as int, self.cursory as int, cursor_color())]
    }

    /// Moving the cursor to `(x, y)` and drawing it there.
    pub open spec fn move_cursor(self, x: usize, y: usize) -> (WindowView, Seq<EffectView>) {
        let w = WindowView { cursorx: x, cursory: y, ..self };
        (w, w.show_cursor())
    }

    /// One cell of the text area: blank, or the character the buffer holds
    /// there.
    pub open spec fn area_cell(self, blank: bool, x: int, y: int) -> EffectView {
        if blank {
            plot_at(' ', x, y, blank_color())
        } else {
            plot_at(self.shown(x, y), x, y, text_color())
        }
    }

    /// The cells of screen column `x`, from the window's top row down to
    /// (not including) row `y_end`.
    pub open spec fn area_column(self, blank: bool, x: int, y_end: int) -> Seq<EffectView>
        decreases y_end - self.starty,
    {
        if y_end <= self.starty {
            seq![]
        } else {
            self.area_column(blank, x, y_end - 1).push(self.area_cell(blank, x, y_end - 1))
        }
    }

    /// The text area column by column, from the window's left column up to
    /// (not including) column `x_end`.
    pub open spec fn area_columns(self, blank: bool, x_end: int) -> Seq<EffectView>
        decreases x_end - self.startx,
    {
        if x_end <= self.startx {
            seq![]
        } else {
            self.area_columns(blank, x_end - 1) + self.area_column(
                blank,
                x_end - 1,
                self.starty + self.height,
            )
        }
    }

    /// Redrawing the text area from the buffer (all columns but the last).
    pub open spec fn printscreen(self) -> Seq<EffectView> {
        self.area_columns(false, self.right())
    }

    /// Erasing the text area (all columns but the last).
    pub open spec fn clear_screen(self) -> Seq<EffectView> {
        self.area_columns(true, self.right())
    }

    /// Erasing the top border from the window's left column up to `x_end`.
    pub open spec fn clear_line_to(self, x_end: int) -> Seq<EffectView>
        decreases x_end - self.startx,
    {
        if x_end <= self.startx {
            seq![]
        } else {
            self.clear_line_to(x_end - 1).push(
                plot_at(' ', x_end - 1, self.starty - 1, blank_color()),
            )
        }
    }

    /// Erasing the top border above the window's columns.
    pub open spec fn clear_line(self) -> Seq<EffectView> {
        self.clear_line_to(self.startx + self.width)
    }

    /// The top border of an upper window leaves two cells free for the title.
    pub open spec fn border_gap(self, x: int) -> bool {
        self.starty == TOP_WINDOW_ROW && (x == self.startx + TITLE_OFFSET || x == self.startx
            + TITLE_OFFSET + 1)
    }

    /// The top and bottom border cells from the left border up to `x_end`.
    pub open spec fn border_rows(self, color: ColorCode, x_end: int) -> Seq<EffectView>
        decreases x_end - self.startx + 1,
    {
        if x_end <= self.startx - 1 {
            seq![]
        } else {
            let x = x_end - 1;
            self.border_rows(color, x) + if self.border_gap(x) {
                seq![]
            } else {
                seq![
                    plot_at('.', x, self.starty - 1, color),
                    plot_at('.', x, self.starty + self.height, color),
                ]
            }
        }
    }

    /// The left and right border cells from the top border down to `y_end`.
    pub open spec fn border_columns(self, color: ColorCode, y_end: int) -> Seq<EffectView>
        decreases y_end - self.starty + 1,
    {
        if y_end <= self.starty - 1 {
            seq![]
        } else {
            let y = y_end - 1;
            self.border_columns(color, y) + seq![
                plot_at('.', self.startx - 1, y, color),
                plot_at('.', self.startx + self.width, y, color),
            ]
        }
    }

    /// The window's border in `color`, then its title "F<id>".
    pub open spec fn border(self, color: ColorCode) -> Seq<EffectView> {
        self.border_rows(color, self.startx + self.width) + self.border_columns(
            color,
            self.starty + self.height,
        ) + seq![
            plot_at('F', self.startx + TITLE_OFFSET, self.starty - 1, text_color()),
            plot_at(self.id, self.startx + TITLE_OFFSET + 1, self.starty - 1, text_color()),
        ]
    }

    /// Screen column of the `f`-th file name.
    pub open spec fn file_col(self, f: int) -> int {
        self.startx + FILE_CELL_WIDTH * (f % FILES_PER_ROW as int)
    }

    /// Screen row of the `f`-th file name.
    pub open spec fn file_row(self, f: int) -> int {
        self.starty + f / FILES_PER_ROW as int
    }

    /// Drawing the `f`-th file name: highlighted when it is the active file.
    pub open spec fn file_entry(self, f: int) -> Seq<EffectView> {
        let col = self.file_col(f) as usize;
        let row = self.file_row(f) as usize;
        if f == self.active_file {
            seq![
                EffectView::PlotStr { text: HIGHLIGHT_BLANK@, col, row, color: highlight_color() },
                EffectView::PlotStr { text: self.files[f], col, row, color: highlight_color() },
            ]
        } else {
            seq![
                EffectView::PlotStr { text: NORMAL_BLANK@, col, row, color: blank_color() },
                EffectView::PlotStr { text: self.files[f], col, row, color: text_color() },
            ]
        }
    }

    /// Drawing the first `n` file names.
    pub open spec fn file_list(self, n: int) -> Seq<EffectView>
        decreases n,
    {
        if n <= 0 {
            seq![]
        } else {
            self.file_list(n - 1) + self.file_entry(n - 1)
        }
    }

    /// Drawing the whole directory.
    pub open spec fn display_files(self) -> Seq<EffectView> {
        self.file_list(self.files.len() as int)
    }

    // ------------------------------------------------------------------
    // Operations
    // ------------------------------------------------------------------
    /// Selecting the next (`pos`) or previous file, wrapping around.
    pub open spec fn change_active_file(self, pos: bool) -> WindowView {
        let num = self.files.len();
        let af = if pos {
            if self.active_file < num - 1 {
                self.active_file + 1
            } else {
                0
            }
        } else {
            if self.active_file != 0 {
                self.active_file - 1
            } else {
                num - 1
            }
        };
        WindowView { active_file: af as usize, ..self }
    }

    /// Enter while editing: down one line, or scroll when on the last row.
    pub open spec fn enter(self) -> (WindowView, Seq<EffectView>) {
        if self.cursory != self.bottom() {
            let (w, e) = self.move_cursor(self.startx, (self.cursory + 1) as usize);
            (w, seq![plot_at(' ', self.cursorx as int, self.cursory as int, blank_color())] + e)
        } else {
            let w = WindowView { topi: (self.topi + 1) as usize, ..self };
            (w, w.printscreen())
        }
    }

    /// `enter` is defined: scrolling keeps the shown rows inside the buffer.
    pub open spec fn enter_ok(self) -> bool {
        self.cursory == self.bottom() ==> self.topi + self.height < TEXT_ROWS
    }

    /// The typed line handed to a waiting program: the first
    /// `num_letters - 1` columns of the input row.
    pub open spec fn input_line(self) -> Seq<char> {
        Seq::new(
            (self.num_letters - 1) as nat,
            |i: int| self.cell(i, self.text_row(self.inputy as int)),
        )
    }

    /// `enterinput` is defined: the line it reads fits the buffer and the
    /// input string.
    pub open spec fn enterinput_ok(self) -> bool {
        self.status == CurrentSwim::AwaitingInput ==> 1 <= self.num_letters <= INPUT_CAPACITY + 1
    }

    /// Enter while a program waits for input: hand it the typed line and
    /// let it run.
    pub open spec fn enterinput(self) -> WindowView {
        if self.status == CurrentSwim::AwaitingInput {
            WindowView {
                cursorx: self.startx,
                cursory: self.starty,
                num_letters: 0,
                status: CurrentSwim::Running,
                running_file: true,
                inpstring: self.input_line(),
                ..self
            }
        } else {
            self
        }
    }

    /// Typing `key`.
    pub open spec fn add_letter(self, key: char) -> (WindowView, Seq<EffectView>) {
        let w1 = if self.status == CurrentSwim::AwaitingInput {
            WindowView {
                cursory: self.inputy,
                num_letters: (self.num_letters + 1) as usize,
                ..self
            }
        } else {
            self
        };
        let (w2, e2) = if w1.cursory < w1.starty + w1.height && w1.cursorx < w1.startx
            + w1.width {
            let p = plot_at(key, w1.cursorx as int, w1.cursory as int, text_color());
            let wt = WindowView {
                text: w1.text.update(
                    cell_index(w1.cursorx - w1.startx, w1.text_row(w1.cursory as int)),
                    key,
                ),
                ..w1
            };
            if wt.cursorx < wt.startx + wt.width - 1 {
                (WindowView { cursorx: (wt.cursorx + 1) as usize, ..wt }, seq![p])
            } else if wt.cursory != wt.bottom() {
                let (wm, em) = wt.move_cursor(wt.startx, (wt.cursory + 1) as usize);
                (wm, seq![p] + em + wm.show_cursor())
            } else {
                (wt, seq![p])
            }
        } else {
            (w1, seq![])
        };
        (WindowView { num_letters: (w2.num_letters + 1) as usize, ..w2 }, e2)
    }

    /// `add_letter` is defined: the letter count does not overflow and the
    /// typed cell lies in the buffer.
    pub open spec fn add_letter_ok(self) -> bool {
        &&& self.num_letters + 2 <= usize::MAX
        &&& (self.status == CurrentSwim::AwaitingInput || self.cursor_inside())
    }

    /// Backspace while editing.
    pub open spec fn backspace(self) -> (WindowView, Seq<EffectView>) {
        let erase = plot_at(' ', self.cursorx as int, self.cursory as int, blank_color());
        if self.cursorx == self.startx && self.cursory != self.starty {
            let (w, e) = self.move_cursor(self.right() as usize, (self.cursory - 1) as usize);
            (w, seq![erase] + e)
        } else if self.cursorx != self.startx {
            let (w, e) = self.move_cursor((self.cursorx - 1) as usize, self.cursory);
            let w2 = WindowView {
                text: w.text.update(
                    cell_index(w.cursorx - w.startx, w.text_row(w.cursory as int)),
                    ' ',
                ),
                ..w
            };
            (w2, seq![erase] + e + w.show_cursor())
        } else {
            (self, seq![])
        }
    }

    /// Moving the cursor right (`pos`) or left along its row, wrapping
    /// around; the cell it leaves is redrawn from the buffer.
    pub open spec fn sidescroll(self, pos: bool) -> (WindowView, Seq<EffectView>) {
        let newx = if pos {
            if self.cursorx != self.right() {
                self.cursorx + 1
            } else {
                self.startx as int
            }
        } else {
            if self.cursorx != self.startx {
                self.cursorx - 1
            } else {
                self.right()
            }
        };
        let p = plot_at(
            self.shown(self.cursorx as int, self.cursory as int),
            self.cursorx as int,
            self.cursory as int,
            text_color(),
        );
        let (w, e) = self.move_cursor(newx as usize, self.cursory);
        (w, seq![p] + e)
    }

    /// Moving the cursor down (`pos`) or up; at the window's edge the text
    /// scrolls instead, as far as the buffer goes.
    pub open spec fn verticalscroll(self, pos: bool) -> (WindowView, Seq<EffectView>) {
        let p = plot_at(
            self.shown(self.cursorx as int, self.cursory as int),
            self.cursorx as int,
            self.cursory as int,
            text_color(),
        );
        if pos {
            if self.cursory != self.bottom() {
                let (w, e) = self.move_cursor(self.cursorx, (self.cursory + 1) as usize);
                (w, seq![p] + e)
            } else if self.topi != TEXT_ROWS - self.height {
                let w = WindowView { topi: (self.topi + 1) as usize, ..self };
                (w, w.printscreen())
            } else {
                (self, seq![])
            }
        } else {
            if self.cursory != self.starty {
                let (w, e) = self.move_cursor(self.cursorx, (self.cursory - 1) as usize);
                (w, seq![p] + e)
            } else if self.topi != 0 {
                let w = WindowView { topi: (self.topi - 1) as usize, ..self };
                (w, w.printscreen())
            } else {
                (self, seq![])
            }
        }
    }

    /// Creating the starting files in the file system of window `slot`.
    pub open spec fn create_files(self, slot: usize) -> (WindowView, Seq<EffectView>) {
        (
            WindowView { files: self.files + default_file_names(), ..self },
            default_file_writes(slot),
        )
    }

    /// Setting the window up as window `slot` titled `am`: cursor home,
    /// border, starting files and their list.
    pub open spec fn initialize(self, am: char, slot: usize) -> (WindowView, Seq<EffectView>) {
        let w1 = WindowView { cursorx: self.startx, id: am, cursory: self.starty, ..self };
        let e1 = w1.border(normal_border_color());
        let w2 = WindowView { init: true, ..w1 };
        if w2.displaying_files {
            let (w3, e3) = w2.create_files(slot);
            (w3, e1 + e3 + w3.display_files())
        } else {
            (w2, e1)
        }
    }

    /// `initialize` is defined: the file system it fills is empty.
    pub open spec fn initialize_ok(self) -> bool {
        self.displaying_files ==> self.files.len() == 0
    }

    /// Loading the active file of window `slot` as its program.
    pub open spec fn run_active_file(self, slot: usize) -> (WindowView, Seq<EffectView>) {
        (
            WindowView {
                status: CurrentSwim::Running,
                outputy: 0,
                cursory: 0,
                cursorx: self.startx,
                num_letters: 0,
                next_letter: 0,
                running_file: true,
                program_loaded: true,
                ..self
            },
            seq![EffectView::RunFile { window: slot, name: self.files[self.active_file as int] }],
        )
    }

    /// The first half of a timer tick: whether the window's program runs
    /// now, and the input it is to be given first (the pending input, which
    /// the window then forgets).
    pub open spec fn tick_begin(self) -> (WindowView, bool, Option<Seq<char>>) {
        if self.status == CurrentSwim::Running && self.program_loaded {
            if self.inpstring.len() > 0 {
                (WindowView { inpstring: seq![], ..self }, true, Some(self.inpstring))
            } else {
                (self, true, None)
            }
        } else {
            (self, false, None)
        }
    }

    /// The second half of a timer tick, given what the program reported if
    /// it ran.
    pub open spec fn tick_end(self, res: Option<TickStatus>) -> (WindowView, Seq<EffectView>) {
        let w1 = match res {
            Some(TickStatus::Finished) => WindowView {
                status: CurrentSwim::DisplayingOutput,
                running_file: false,
                ..self
            },
            Some(TickStatus::AwaitInput) => WindowView {
                status: CurrentSwim::AwaitingInput,
                num_letters: 0,
                cursory: (self.starty + 1) as usize,
                next_letter: 0,
                ..self
            },
            _ => self,
        };
        let w2 = if w1.status == CurrentSwim::AwaitingInput {
            WindowView { outputy: 0, ..w1 }
        } else {
            w1
        };
        if w2.status == CurrentSwim::DisplayingFiles {
            (w2, w2.display_files())
        } else {
            (w2, seq![])
        }
    }

    /// Output of the window's program: when the bytes are UTF-8, the text
    /// area is cleared and the text drawn at its top left corner.
    pub open spec fn print(self, bytes: Seq<u8>) -> (WindowView, Seq<EffectView>) {
        if valid_utf8(bytes) {
            (
                WindowView {
                    outputy: (self.outputy + 1) as usize,
                    inputy: (self.starty + 1) as usize,
                    ..self
                },
                self.clear_screen().push(
                    EffectView::PlotStr {
                        text: decode_utf8(bytes),
                        col: self.startx,
                        row: self.starty,
                        color: text_color(),
                    },
                ),
            )
        } else {
            (self, seq![])
        }
    }
}

} // verus!
