use vstd::prelude::*;

verus! {

/// Width of the VGA text screen, in cells.
pub const BUFFER_WIDTH: usize = 80;

/// Height of the VGA text screen, in cells.
pub const BUFFER_HEIGHT: usize = 25;

/// One of the sixteen VGA text colors.
#[derive(Clone, Copy, PartialEq, Eq, Structural, Debug)]
pub enum Color {
    Black,
    Blue,
    Green,
    Cyan,
    Red,
    Magenta,
    Brown,
    LightGray,
    DarkGray,
    LightBlue,
    LightGreen,
    LightCyan,
    LightRed,
    Pink,
    Yellow,
    White,
}

/// A foreground and a background color.
#[derive(Clone, Copy, PartialEq, Eq, Structural, Debug)]
pub struct ColorCode {
    pub foreground: Color,
    pub background: Color,
}

impl ColorCode {
    pub fn new(foreground: Color, background: Color) -> (c: ColorCode)
        ensures
            c == (ColorCode { foreground, background }),
    {
        ColorCode { foreground, background }
    }
}

/// Cyan on black: the color of text.
pub open spec fn text_color() -> ColorCode {
    ColorCode { foreground: Color::Cyan, background: Color::Black }
}

/// Black on black: an erased cell.
pub open spec fn blank_color() -> ColorCode {
    ColorCode { foreground: Color::Black, background: Color::Black }
}

/// Black on white: the cursor.
pub open spec fn cursor_color() -> ColorCode {
    ColorCode { foreground: Color::Black, background: Color::White }
}

/// White on magenta: the border of the window that has the focus.
pub open spec fn active_border_color() -> ColorCode {
    ColorCode { foreground: Color::White, background: Color::Magenta }
}

/// White on black: the border of every other window.
pub open spec fn normal_border_color() -> ColorCode {
    ColorCode { foreground: Color::White, background: Color::Black }
}

/// Black on cyan: the highlighted file name.
pub open spec fn highlight_color() -> ColorCode {
    ColorCode { foreground: Color::Black, background: Color::Cyan }
}

pub fn text_code() -> (c: ColorCode)
    ensures
        c == text_color(),
{
    ColorCode::new(Color::Cyan, Color::Black)
}

pub fn blank_code() -> (c: ColorCode)
    ensures
        c == blank_color(),
{
    ColorCode::new(Color::Black, Color::Black)
}

pub fn cursor_code() -> (c: ColorCode)
    ensures
        c == cursor_color(),
{
    ColorCode::new(Color::Black, Color::White)
}

pub fn highlight_code() -> (c: ColorCode)
    ensures
        c == highlight_color(),
{
    ColorCode::new(Color::Black, Color::Cyan)
}

/// Something the console asks its host to do: draw on the screen, or
/// work with a window's file system.
#[derive(Debug, PartialEq, Eq)]
pub enum Effect {
    /// Draw one character.
    Plot { ch: char, col: usize, row: usize, color: ColorCode },
    /// Draw a string from `col` rightwards, cut at the screen's edge.
    PlotStr { text: String, col: usize, row: usize, color: ColorCode },
    /// Draw a number in decimal from `col` rightwards.
    PlotNum { num: isize, col: usize, row: usize, color: ColorCode },
    /// Create the file `name` in the file system of window `window` and
    /// write `contents` into it.
    WriteFile { window: usize, name: String, contents: String },
    /// Read the file `name` of window `window` and load it as that
    /// window's program.
    RunFile { window: usize, name: String },
}

/// What an [`Effect`] holds, with its strings as sequences of characters.
pub enum EffectView {
    Plot { ch: char, col: usize, row: usize, color: ColorCode },
    PlotStr { text: Seq<char>, col: usize, row: usize, color: ColorCode },
    PlotNum { num: isize, col: usize, row: usize, color: ColorCode },
    WriteFile { window: usize, name: Seq<char>, contents: Seq<char> },
    RunFile { window: usize, name: Seq<char> },
}

impl View for Effect {
    type V = EffectView;

    open spec fn view(&self) -> EffectView {
        match self {
            Effect::Plot { ch, col, row, color } => EffectView::Plot {
                ch: *ch,
                col: *col,
                row: *row,
                color: *color,
            },
            Effect::PlotStr { text, col, row, color } => EffectView::PlotStr {
                text: text@,
                col: *col,
                row: *row,
                color: *color,
            },
            Effect::PlotNum { num, col, row, color } => EffectView::PlotNum {
                num: *num,
                col: *col,
                row: *row,
                color: *color,
            },
            Effect::WriteFile { window, name, contents } => EffectView::WriteFile {
                window: *window,
                name: name@,
                contents: contents@,
            },
            Effect::RunFile { window, name } => EffectView::RunFile {
                window: *window,
                name: name@,
            },
        }
    }
}

/// The effects of a list, as values.
pub open spec fn effects_view(s: Seq<Effect>) -> Seq<EffectView> {
    s.map_values(|e: Effect| e@)
}

/// A single character drawn at `(col, row)`.
pub open spec fn plot_at(ch: char, col: int, row: int, color: ColorCode) -> EffectView {
    EffectView::Plot { ch, col: col as usize, row: row as usize, color }
}

/// The effect draws inside the screen (or draws nothing).
pub open spec fn on_screen(e: EffectView) -> bool {
    match e {
        EffectView::Plot { col, row, .. } => col < BUFFER_WIDTH && row < BUFFER_HEIGHT,
        EffectView::PlotStr { col, row, .. } => col < BUFFER_WIDTH && row < BUFFER_HEIGHT,
        EffectView::PlotNum { col, row, .. } => col < BUFFER_WIDTH && row < BUFFER_HEIGHT,
        _ => true,
    }
}

/// Every effect of `s` draws inside the screen.
pub open spec fn all_on_screen(s: Seq<EffectView>) -> bool {
    forall|i: int| 0 <= i < s.len() ==> on_screen(#[trigger] s[i])
}

/// Appends `e` to `out`.
pub fn emit(out: &mut Vec<Effect>, e: Effect)
    ensures
        effects_view(final(out)@) == effects_view(old(out)@).push(e@),
{
    out.push(e);
    assert(effects_view(out@) =~= effects_view(old(out)@).push(e@));
}

/// Appends the drawing of `ch` at `(col, row)` to `out`.
pub fn plot(out: &mut Vec<Effect>, ch: char, col: usize, row: usize, color: ColorCode)
    ensures
        effects_view(final(out)@) == effects_view(old(out)@).push(
            plot_at(ch, col as int, row as int, color),
        ),
{
    emit(out, Effect::Plot { ch, col, row, color });
}

/// Appends the drawing of `text` from `(col, row)` to `out`.
pub fn plot_str(out: &mut Vec<Effect>, text: String, col: usize, row: usize, color: ColorCode)
    ensures
        effects_view(final(out)@) == effects_view(old(out)@).push(
            EffectView::PlotStr { text: text@, col, row, color },
        ),
{
    emit(out, Effect::PlotStr { text, col, row, color });
}

/// Appends the drawing of `num` from `(col, row)` to `out`.
pub fn plot_num(out: &mut Vec<Effect>, num: isize, col: usize, row: usize, color: ColorCode)
    ensures
        effects_view(final(out)@) == effects_view(old(out)@).push(
            EffectView::PlotNum { num, col, row, color },
        ),
{
    emit(out, Effect::PlotNum { num, col, row, color });
}

/// The smallest and the largest byte that the screen can draw as itself.
pub const MIN_DRAWABLE: u32 = 0x20;

pub const MAX_DRAWABLE: u32 = 0x7e;

/// The screen keeps the low byte of a character: the character is drawable
/// when that byte is a printable ASCII code.
pub open spec fn drawable(c: char) -> bool {
    MIN_DRAWABLE <= (c as u32) % 256 <= MAX_DRAWABLE
}

/// Whether `c` can be drawn on the screen; as the screen does, only the low
/// byte of the character counts.
pub fn is_drawable(c: char) -> (b: bool)
    ensures
        b == drawable(c),
{
    let low: u32 = (c as u32) % 256;
    MIN_DRAWABLE <= low && low <= MAX_DRAWABLE
}

} // verus!
