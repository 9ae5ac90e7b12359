use vstd::prelude::*;
use crate::arith::{ring_add, ring_pred, ring_succ};
use crate::screen::{all_on_screen, on_screen, plot_at, ColorCode, EffectView, BUFFER_WIDTH};
use crate::window_spec::{
    CurrentSwim, TickStatus, WindowView, AVERAGE_NAME, AVERAGE_PROGRAM, HELLO_NAME, HELLO_PROGRAM,
    NUMS_NAME, NUMS_PROGRAM, PI_NAME, PI_PROGRAM, TEXT_ROWS,
};
use crate::swim_spec::{SwimView, TickActionView, TickEvent, TickPhase, NUM_WINDOWS};
use crate::keys::{DecodedKey, KeyCode};
use crate::screen::{drawable, highlight_color};

verus! {

// ----------------------------------------------------------------------
// The ring arithmetic
// ----------------------------------------------------------------------
/// A sum on the ring is a position of the ring.
pub proof fn lemma_ring_add_in_range(limit: int, a: int, b: int)
    requires
        limit > 0,
    ensures
        0 <= ring_add(limit, a, b) < limit,
{
}

/// Stepping forward and then back on the ring returns to the start.
pub proof fn lemma_pred_undoes_succ(limit: int, v: int)
    requires
        0 <= v < limit,
    ensures
        ring_pred(limit, ring_succ(limit, v)) == v,
{
    if v + 1 < limit {
        assert((v + 1) % limit == v + 1) by {
            vstd::arithmetic::div_mod::lemma_small_mod((v + 1) as nat, limit as nat);
        }
        assert((v + 1 + limit - 1) % limit == v) by {
            vstd::arithmetic::div_mod::lemma_mod_add_multiples_vanish(v, limit);
            vstd::arithmetic::div_mod::lemma_small_mod(v as nat, limit as nat);
        }
    } else {
        assert((v + 1) % limit == 0) by {
            vstd::arithmetic::div_mod::lemma_mod_self_0(limit);
        }
        assert((0 + limit - 1) % limit == v) by {
            vstd::arithmetic::div_mod::lemma_small_mod((limit - 1) as nat, limit as nat);
        }
    }
}

/// Stepping back and then forward on the ring returns to the start.
pub proof fn lemma_succ_undoes_pred(limit: int, v: int)
    requires
        0 <= v < limit,
    ensures
        ring_succ(limit, ring_pred(limit, v)) == v,
{
    let p = (v + limit - 1) % limit;
    if v == 0 {
        assert(p == limit - 1) by {
            vstd::arithmetic::div_mod::lemma_small_mod((limit - 1) as nat, limit as nat);
        }
        assert((limit - 1 + 1) % limit == 0) by {
            vstd::arithmetic::div_mod::lemma_mod_self_0(limit);
        }
    } else {
        assert(p == v - 1) by {
            vstd::arithmetic::div_mod::lemma_mod_add_multiples_vanish(v - 1, limit);
            vstd::arithmetic::div_mod::lemma_small_mod((v - 1) as nat, limit as nat);
        }
        assert((v - 1 + 1) % limit == v) by {
            vstd::arithmetic::div_mod::lemma_small_mod(v as nat, limit as nat);
        }
    }
}

// ----------------------------------------------------------------------
// Moving around a window
// ----------------------------------------------------------------------
/// Selecting the next file and then the previous one (or the other way
/// round) selects the file that was selected before.
pub proof fn lemma_change_active_file_round_trip(w: WindowView, pos: bool)
    requires
        w.wf(),
        w.files.len() > 0,
    ensures
        w.change_active_file(pos).change_active_file(!pos) == w,
{
}

/// Moving the cursor one cell sideways and back leaves the window as it was.
pub proof fn lemma_sidescroll_round_trip(w: WindowView, pos: bool)
    requires
        w.wf(),
        w.cursor_inside(),
    ensures
        w.sidescroll(pos).0.sidescroll(!pos).0 == w,
{
}

/// Away from the window's last row, moving the cursor down one row and back
/// up leaves the window as it was.
pub proof fn lemma_verticalscroll_round_trip(w: WindowView)
    requires
        w.wf(),
        w.cursor_inside(),
        w.cursory != w.bottom(),
    ensures
        w.verticalscroll(true).0.verticalscroll(false).0 == w,
{
}

// ----------------------------------------------------------------------
// Drawing stays on the screen
// ----------------------------------------------------------------------
proof fn lemma_concat_on_screen(a: Seq<EffectView>, b: Seq<EffectView>)
    requires
        all_on_screen(a),
        all_on_screen(b),
    ensures
        all_on_screen(a + b),
{
    assert forall|i: int| 0 <= i < (a + b).len() implies on_screen(#[trigger] (a + b)[i]) by {
        if i < a.len() {
            assert((a + b)[i] == a[i]);
        } else {
            assert((a + b)[i] == b[i - a.len()]);
        }
    }
}

proof fn lemma_push_on_screen(a: Seq<EffectView>, e: EffectView)
    requires
        all_on_screen(a),
        on_screen(e),
    ensures
        all_on_screen(a.push(e)),
{
    assert forall|i: int| 0 <= i < a.push(e).len() implies on_screen(#[trigger] a.push(e)[i]) by {
        if i < a.len() {
            assert(a.push(e)[i] == a[i]);
        }
    }
}

proof fn lemma_area_column_on_screen(w: WindowView, blank: bool, x: int, y_end: int)
    requires
        w.wf(),
        0 <= x < BUFFER_WIDTH,
        y_end <= w.starty + w.height,
    ensures
        all_on_screen(w.area_column(blank, x, y_end)),
    decreases y_end - w.starty,
{
    if y_end > w.starty {
        lemma_area_column_on_screen(w, blank, x, y_end - 1);
        lemma_push_on_screen(w.area_column(blank, x, y_end - 1), w.area_cell(blank, x, y_end - 1));
    }
}

proof fn lemma_area_columns_on_screen(w: WindowView, blank: bool, x_end: int)
    requires
        w.wf(),
        x_end <= w.startx + w.width,
    ensures
        all_on_screen(w.area_columns(blank, x_end)),
    decreases x_end - w.startx,
{
    if x_end > w.startx {
        lemma_area_columns_on_screen(w, blank, x_end - 1);
        lemma_area_column_on_screen(w, blank, x_end - 1, w.starty + w.height);
        lemma_concat_on_screen(
            w.area_columns(blank, x_end - 1),
            w.area_column(blank, x_end - 1, w.starty + w.height),
        );
    }
}

proof fn lemma_clear_line_on_screen(w: WindowView, x_end: int)
    requires
        w.wf(),
        x_end <= w.startx + w.width,
    ensures
        all_on_screen(w.clear_line_to(x_end)),
    decreases x_end - w.startx,
{
    if x_end > w.startx {
        lemma_clear_line_on_screen(w, x_end - 1);
        lemma_push_on_screen(
            w.clear_line_to(x_end - 1),
            plot_at(' ', x_end - 1, w.starty - 1, crate::screen::blank_color()),
        );
    }
}

proof fn lemma_border_rows_on_screen(w: WindowView, color: ColorCode, x_end: int)
    requires
        w.layout_ok(),
        x_end <= w.startx + w.width,
    ensures
        all_on_screen(w.border_rows(color, x_end)),
    decreases x_end - w.startx + 1,
{
    if x_end > w.startx - 1 {
        lemma_border_rows_on_screen(w, color, x_end - 1);
        let x = x_end - 1;
        let tail = if w.border_gap(x) {
            seq![]
        } else {
            seq![plot_at('.', x, w.starty - 1, color), plot_at('.', x, w.starty + w.height, color)]
        };
        assert(all_on_screen(tail));
        lemma_concat_on_screen(w.border_rows(color, x), tail);
    }
}

proof fn lemma_border_columns_on_screen(w: WindowView, color: ColorCode, y_end: int)
    requires
        w.layout_ok(),
        y_end <= w.starty + w.height,
    ensures
        all_on_screen(w.border_columns(color, y_end)),
    decreases y_end - w.starty + 1,
{
    if y_end > w.starty - 1 {
        lemma_border_columns_on_screen(w, color, y_end - 1);
        let y = y_end - 1;
        let tail = seq![
            plot_at('.', w.startx - 1, y, color),
            plot_at('.', w.startx + w.width, y, color),
        ];
        assert(all_on_screen(tail));
        lemma_concat_on_screen(w.border_columns(color, y), tail);
    }
}

proof fn lemma_border_on_screen(w: WindowView, color: ColorCode)
    requires
        w.layout_ok(),
    ensures
        all_on_screen(w.border(color)),
{
    lemma_border_rows_on_screen(w, color, w.startx + w.width);
    lemma_border_columns_on_screen(w, color, w.starty + w.height);
    let title = seq![
        plot_at('F', w.startx + 17, w.starty - 1, crate::screen::text_color()),
        plot_at(w.id, w.startx + 18, w.starty - 1, crate::screen::text_color()),
    ];
    assert(all_on_screen(title));
    lemma_concat_on_screen(
        w.border_rows(color, w.startx + w.width),
        w.border_columns(color, w.starty + w.height),
    );
    lemma_concat_on_screen(
        w.border_rows(color, w.startx + w.width) + w.border_columns(color, w.starty + w.height),
        title,
    );
}

proof fn lemma_file_list_on_screen(w: WindowView, n: int)
    requires
        w.layout_ok(),
        n <= w.files.len(),
    ensures
        all_on_screen(w.file_list(n)),
    decreases n,
{
    if n > 0 {
        lemma_file_list_on_screen(w, n - 1);
        let f = n - 1;
        assert(0 <= f % 3 < 3);
        assert(f / 3 <= 9);
        assert(all_on_screen(w.file_entry(f)));
        lemma_concat_on_screen(w.file_list(n - 1), w.file_entry(f));
    }
}

/// Everything a window draws as a whole (its text, its border, its file
/// list, its cursor) lies on the screen.
pub proof fn lemma_window_drawing_on_screen(w: WindowView, color: ColorCode)
    requires
        w.wf(),
    ensures
        all_on_screen(w.printscreen()),
        all_on_screen(w.clear_screen()),
        all_on_screen(w.clear_line()),
        all_on_screen(w.border(color)),
        all_on_screen(w.display_files()),
        all_on_screen(w.show_cursor()),
{
    lemma_area_columns_on_screen(w, false, w.right());
    lemma_area_columns_on_screen(w, true, w.right());
    lemma_clear_line_on_screen(w, w.startx + w.width);
    lemma_border_on_screen(w, color);
    lemma_file_list_on_screen(w, w.files.len() as int);
}

proof fn lemma_enter_on_screen(w: WindowView)
    requires
        w.wf(),
        w.enter_ok(),
    ensures
        all_on_screen(w.enter().1),
{
    let c = crate::screen::text_color();
    if w.cursory != w.bottom() {
        let (m, e) = w.move_cursor(w.startx, (w.cursory + 1) as usize);
        lemma_window_drawing_on_screen(m, c);
        lemma_concat_on_screen(
            seq![plot_at(' ', w.cursorx as int, w.cursory as int, crate::screen::blank_color())],
            e,
        );
    } else {
        lemma_window_drawing_on_screen(w.enter().0, c);
    }
}

proof fn lemma_add_letter_on_screen(w: WindowView, key: char)
    requires
        w.wf(),
        w.add_letter_ok(),
    ensures
        all_on_screen(w.add_letter(key).1),
{
    let c = crate::screen::text_color();
    let w1 = if w.status == CurrentSwim::AwaitingInput {
        WindowView { cursory: w.inputy, num_letters: (w.num_letters + 1) as usize, ..w }
    } else {
        w
    };
    let p = plot_at(key, w1.cursorx as int, w1.cursory as int, c);
    let wt = WindowView {
        text: w1.text.update(
            crate::window_spec::cell_index(w1.cursorx - w1.startx, w1.text_row(w1.cursory as int)),
            key,
        ),
        ..w1
    };
    if wt.cursorx >= wt.startx + wt.width - 1 && wt.cursory != wt.bottom() {
        let (wm, em) = wt.move_cursor(wt.startx, (wt.cursory + 1) as usize);
        lemma_window_drawing_on_screen(wm, c);
        lemma_concat_on_screen(seq![p], em);
        lemma_concat_on_screen(seq![p] + em, wm.show_cursor());
    }
}

proof fn lemma_backspace_on_screen(w: WindowView)
    requires
        w.wf(),
        w.cursor_inside(),
    ensures
        all_on_screen(w.backspace().1),
{
    let c = crate::screen::text_color();
    let erase = plot_at(' ', w.cursorx as int, w.cursory as int, crate::screen::blank_color());
    if w.cursorx == w.startx && w.cursory != w.starty {
        let (m, e) = w.move_cursor(w.right() as usize, (w.cursory - 1) as usize);
        lemma_window_drawing_on_screen(m, c);
        lemma_concat_on_screen(seq![erase], e);
    } else if w.cursorx != w.startx {
        let (m, e) = w.move_cursor((w.cursorx - 1) as usize, w.cursory);
        lemma_window_drawing_on_screen(m, c);
        lemma_concat_on_screen(seq![erase], e);
        lemma_concat_on_screen(seq![erase] + e, m.show_cursor());
    }
}

proof fn lemma_sidescroll_on_screen(w: WindowView, pos: bool)
    requires
        w.wf(),
        w.cursor_inside(),
    ensures
        all_on_screen(w.sidescroll(pos).1),
{
    let c = crate::screen::text_color();
    let p = plot_at(w.shown(w.cursorx as int, w.cursory as int), w.cursorx as int, w.cursory as int, c);
    let newx = if pos {
        if w.cursorx != w.right() {
            w.cursorx + 1
        } else {
            w.startx as int
        }
    } else {
        if w.cursorx != w.startx {
            w.cursorx - 1
        } else {
            w.right()
        }
    };
    let (m, e) = w.move_cursor(newx as usize, w.cursory);
    lemma_window_drawing_on_screen(m, c);
    lemma_concat_on_screen(seq![p], e);
}

proof fn lemma_verticalscroll_on_screen(w: WindowView, pos: bool)
    requires
        w.wf(),
        w.cursor_inside(),
    ensures
        all_on_screen(w.verticalscroll(pos).1),
{
    let c = crate::screen::text_color();
    let p = plot_at(w.shown(w.cursorx as int, w.cursory as int), w.cursorx as int, w.cursory as int, c);
    if pos {
        if w.cursory != w.bottom() {
            let (m, e) = w.move_cursor(w.cursorx, (w.cursory + 1) as usize);
            lemma_window_drawing_on_screen(m, c);
            lemma_concat_on_screen(seq![p], e);
        } else if w.topi != TEXT_ROWS - w.height {
            lemma_window_drawing_on_screen(w.verticalscroll(pos).0, c);
        }
    } else {
        if w.cursory != w.starty {
            let (m, e) = w.move_cursor(w.cursorx, (w.cursory - 1) as usize);
            lemma_window_drawing_on_screen(m, c);
            lemma_concat_on_screen(seq![p], e);
        } else if w.topi != 0 {
            lemma_window_drawing_on_screen(w.verticalscroll(pos).0, c);
        }
    }
}

proof fn lemma_tick_end_on_screen(w: WindowView, res: Option<TickStatus>)
    requires
        w.wf(),
    ensures
        all_on_screen(w.tick_end(res).1),
{
    let w1 = match res {
        Some(TickStatus::Finished) => WindowView {
            status: CurrentSwim::DisplayingOutput,
            running_file: false,
            ..w
        },
        Some(TickStatus::AwaitInput) => WindowView {
            status: CurrentSwim::AwaitingInput,
            num_letters: 0,
            cursory: (w.starty + 1) as usize,
            next_letter: 0,
            ..w
        },
        _ => w,
    };
    let w2 = if w1.status == CurrentSwim::AwaitingInput {
        WindowView { outputy: 0, ..w1 }
    } else {
        w1
    };
    lemma_window_drawing_on_screen(w2, crate::screen::text_color());
}

proof fn lemma_print_on_screen(w: WindowView, bytes: Seq<u8>)
    requires
        w.wf(),
    ensures
        all_on_screen(w.print(bytes).1),
{
    let c = crate::screen::text_color();
    lemma_window_drawing_on_screen(w, c);
    lemma_push_on_screen(
        w.clear_screen(),
        EffectView::PlotStr {
            text: vstd::utf8::decode_utf8(bytes),
            col: w.startx,
            row: w.starty,
            color: c,
        },
    );
}

/// Every step of a window draws on the screen only.
pub proof fn lemma_window_steps_on_screen(
    w: WindowView,
    key: char,
    pos: bool,
    slot: usize,
    bytes: Seq<u8>,
    res: Option<TickStatus>,
)
    requires
        w.wf(),
    ensures
        w.enter_ok() ==> all_on_screen(w.enter().1),
        w.add_letter_ok() ==> all_on_screen(w.add_letter(key).1),
        w.cursor_inside() ==> all_on_screen(w.backspace().1),
        w.cursor_inside() ==> all_on_screen(w.sidescroll(pos).1),
        w.cursor_inside() ==> all_on_screen(w.verticalscroll(pos).1),
        all_on_screen(w.tick_end(res).1),
        all_on_screen(w.print(bytes).1),
        all_on_screen(w.run_active_file(slot).1),
{
    if w.enter_ok() {
        lemma_enter_on_screen(w);
    }
    if w.add_letter_ok() {
        lemma_add_letter_on_screen(w, key);
    }
    if w.cursor_inside() {
        lemma_backspace_on_screen(w);
        lemma_sidescroll_on_screen(w, pos);
        lemma_verticalscroll_on_screen(w, pos);
    }
    lemma_tick_end_on_screen(w, res);
    lemma_print_on_screen(w, bytes);
}

/// Setting a window up draws on the screen only.
pub proof fn lemma_initialize_on_screen(w: WindowView, am: char, slot: usize)
    requires
        w.layout_ok(),
        w.initialize_ok(),
    ensures
        all_on_screen(w.initialize(am, slot).1),
{
    let w1 = WindowView { cursorx: w.startx, id: am, cursory: w.starty, ..w };
    let c = crate::screen::normal_border_color();
    lemma_window_drawing_on_screen(w1, c);
    let w2 = WindowView { init: true, ..w1 };
    if w2.displaying_files {
        let (w3, e3) = w2.create_files(slot);
        assert(all_on_screen(e3));
        assert(w3.wf());
        lemma_window_drawing_on_screen(w3, c);
        lemma_concat_on_screen(w1.border(c), e3);
        lemma_concat_on_screen(w1.border(c) + e3, w3.display_files());
    }
}

// ----------------------------------------------------------------------
// The console
// ----------------------------------------------------------------------
/// A key press draws on the screen only.
pub proof fn lemma_key_on_screen(s: SwimView, key: DecodedKey)
    requires
        s.wf(),
        s.key_ok(key),
    ensures
        all_on_screen(s.key(key).1),
{
    let a = s.active_win as int;
    let w = s.active();
    assert(w.wf());
    match key {
        DecodedKey::RawKey(code) => {
            match code {
                KeyCode::F1 | KeyCode::F2 | KeyCode::F3 | KeyCode::F4 => {
                    let n: usize = match code {
                        KeyCode::F1 => 0,
                        KeyCode::F2 => 1,
                        KeyCode::F3 => 2,
                        _ => 3,
                    };
                    if s.active_win != n {
                        let s1 = s.with_window(a, WindowView { active: false, ..w });
                        assert(s1.windows[n as int].wf());
                        lemma_window_drawing_on_screen(w, crate::screen::normal_border_color());
                        lemma_window_drawing_on_screen(
                            s1.windows[n as int],
                            crate::screen::active_border_color(),
                        );
                        lemma_concat_on_screen(
                            w.border(crate::screen::normal_border_color()),
                            s1.windows[n as int].border(crate::screen::active_border_color()),
                        );
                    }
                },
                KeyCode::F6 => {
                    let w2 = WindowView { status: CurrentSwim::DisplayingFiles, ..w };
                    lemma_window_drawing_on_screen(w2, crate::screen::text_color());
                },
                _ => {},
            }
        },
        DecodedKey::Unicode(c) => {
            if c == 'r' && w.status == CurrentSwim::DisplayingFiles {
                assert(all_on_screen(w.run_active_file(s.active_win).1));
            } else if c != '\n' && c != '\u{08}' && c != '\u{7f}' && c != 'r' && drawable(c) {
                if w.status == CurrentSwim::AwaitingInput {
                    lemma_add_letter_on_screen(w, c);
                }
            }
        },
    }
}

/// Every part of a timer tick draws on the screen only.
proof fn lemma_tick_on_screen(s: SwimView, i: int, bytes: Seq<u8>, res: Option<TickStatus>)
    requires
        s.wf(),
        0 <= i < NUM_WINDOWS,
    ensures
        all_on_screen(s.tick_start().1),
        all_on_screen(s.tick_schedule().1),
        all_on_screen(s.plot_ins_counts()),
        all_on_screen(s.windows[i].print(bytes).1),
        all_on_screen(s.windows[i].tick_end(res).1),
{
    assert(s.windows[i].wf());
    lemma_print_on_screen(s.windows[i], bytes);
    lemma_tick_end_on_screen(s.windows[i], res);
    if !s.init {
        lemma_initialize_console_on_screen(s);
    }
}

proof fn lemma_initialize_console_on_screen(s: SwimView)
    requires
        s.wf(),
        !s.init,
    ensures
        all_on_screen(s.initialize().1),
{
    let e0 = seq![
        EffectView::PlotStr {
            text: crate::swim_spec::HEADER@,
            col: 0,
            row: 0,
            color: crate::screen::text_color(),
        },
    ];
    assert(s.windows[0].wf() && s.windows[1].wf() && s.windows[2].wf() && s.windows[3].wf());
    assert(s.windows[0].files.len() == 0 && s.windows[1].files.len() == 0);
    assert(s.windows[2].files.len() == 0 && s.windows[3].files.len() == 0);
    assert(s.windows[0].starty == 2 && s.windows[1].starty == 2);
    assert(s.windows[2].starty == 2 && s.windows[3].starty == 2);
    let (s1, e1) = s.setup_window(0);
    lemma_initialize_on_screen(s.placed(0), '1', 0);
    let (s2, e2) = s1.setup_window(1);
    assert(s1.windows[1] == s.windows[1]);
    lemma_initialize_on_screen(s1.placed(1), '2', 1);
    let (s3, e3) = s2.setup_window(2);
    assert(s2.windows[2] == s.windows[2]);
    lemma_initialize_on_screen(s2.placed(2), '3', 2);
    let (s4, e4) = s3.setup_window(3);
    assert(s3.windows[3] == s.windows[3]);
    lemma_initialize_on_screen(s3.placed(3), '4', 3);
    let w0 = s4.windows[0];
    assert(w0 == s1.windows[0]);
    assert(w0 == s.placed(0).initialize('1', 0).0);
    assert(w0.wf());
    lemma_window_drawing_on_screen(w0, crate::screen::active_border_color());
    assert(all_on_screen(e0));
    lemma_concat_on_screen(e0, e1);
    lemma_concat_on_screen(e0 + e1, e2);
    lemma_concat_on_screen(e0 + e1 + e2, e3);
    lemma_concat_on_screen(e0 + e1 + e2 + e3, e4);
    lemma_concat_on_screen(e0 + e1 + e2 + e3 + e4, w0.border(crate::screen::active_border_color()));
}

/// A key press other than F1 to F4 changes only the window with the focus:
/// the other windows, the focus and the scheduler stay as they were.
pub proof fn lemma_key_changes_only_active_window(s: SwimView, key: DecodedKey)
    requires
        s.wf(),
        s.key_ok(key),
        key != DecodedKey::RawKey(KeyCode::F1),
        key != DecodedKey::RawKey(KeyCode::F2),
        key != DecodedKey::RawKey(KeyCode::F3),
        key != DecodedKey::RawKey(KeyCode::F4),
    ensures
        forall|j: int|
            0 <= j < NUM_WINDOWS && j != s.active_win ==> #[trigger] s.key(key).0.windows[j]
                == s.windows[j],
        s.key(key).0.windows.len() == NUM_WINDOWS,
        s.key(key).0.active_win == s.active_win,
        s.key(key).0.window_ticks == s.window_ticks,
        s.key(key).0.nextt == s.nextt,
        s.key(key).0.init == s.init,
{
}

/// F1 to F4 move the focus to the first to fourth window; only the window
/// that loses the focus changes, and only in its mark.
pub proof fn lemma_function_key_focuses(s: SwimView, n: usize)
    requires
        s.wf(),
        n < NUM_WINDOWS,
    ensures
        ({
            let key = if n == 0 {
                DecodedKey::RawKey(KeyCode::F1)
            } else if n == 1 {
                DecodedKey::RawKey(KeyCode::F2)
            } else if n == 2 {
                DecodedKey::RawKey(KeyCode::F3)
            } else {
                DecodedKey::RawKey(KeyCode::F4)
            };
            let t = s.key(key).0;
            &&& t.active_win == n
            &&& t.windows.len() == NUM_WINDOWS
            &&& forall|j: int|
                0 <= j < NUM_WINDOWS && j != s.active_win ==> #[trigger] t.windows[j]
                    == s.windows[j]
            &&& t.windows[s.active_win as int] == if s.active_win == n {
                s.active()
            } else {
                WindowView { active: false, ..s.active() }
            }
        }),
{
}

/// ArrowLeft selects the previous file and ArrowRight the next: pressed one
/// after the other, they leave the console as it was.
pub proof fn lemma_arrows_round_trip(s: SwimView)
    requires
        s.wf(),
        s.active().files.len() > 0,
    ensures
        s.key(DecodedKey::RawKey(KeyCode::ArrowLeft)).0.key(
            DecodedKey::RawKey(KeyCode::ArrowRight),
        ).0 == s,
        s.key(DecodedKey::RawKey(KeyCode::ArrowRight)).0.key(
            DecodedKey::RawKey(KeyCode::ArrowLeft),
        ).0 == s,
{
    let a = s.active_win as int;
    let w = s.active();
    lemma_change_active_file_round_trip(w, false);
    lemma_change_active_file_round_trip(w, true);
    let t1 = s.key(DecodedKey::RawKey(KeyCode::ArrowLeft)).0;
    assert(t1.windows[a] == w.change_active_file(false));
    assert(t1.key(DecodedKey::RawKey(KeyCode::ArrowRight)).0.windows =~= s.windows);
    let t2 = s.key(DecodedKey::RawKey(KeyCode::ArrowRight)).0;
    assert(t2.windows[a] == w.change_active_file(true));
    assert(t2.key(DecodedKey::RawKey(KeyCode::ArrowLeft)).0.windows =~= s.windows);
}

/// The scheduler: when some window runs a program, the first window gets
/// the extra step of the tick, its counter alone goes up by one, and the
/// scheduler's position stays below the number of running windows; when
/// none does, nothing changes. The windows themselves do not change.
pub proof fn lemma_schedule(s: SwimView)
    requires
        s.wf(),
        s.tick_schedule_ok(),
    ensures
        ({
            let (t, _e, r) = s.tick_schedule();
            &&& (r is Some <==> s.running_count() > 0)
            &&& r is Some ==> {
                &&& r == Some(0usize)
                &&& t.window_ticks == s.window_ticks.update(0, (s.window_ticks[0] + 1) as usize)
                &&& t.nextt < s.running_count()
            }
            &&& r is None ==> t == s
            &&& t.windows == s.windows
            &&& t.wf()
        }),
{
    s.lemma_running_prefix_bound(NUM_WINDOWS as int);
}

/// Setting the console up puts the four windows in the four corners of the
/// screen, titled 1 to 4, each listing the starting files, with the focus
/// on the first.
pub proof fn lemma_initialize_layout(s: SwimView)
    requires
        s.wf(),
        !s.init,
    ensures
        ({
            let t = s.initialize().0;
            &&& t.init
            &&& t.active_win == 0
            &&& t.windows.len() == NUM_WINDOWS
            &&& t.windows[0].startx == 1 && t.windows[0].starty == 2 && t.windows[0].id == '1'
            &&& t.windows[1].startx == 36 && t.windows[1].starty == 2 && t.windows[1].id == '2'
            &&& t.windows[2].startx == 1 && t.windows[2].starty == 13 && t.windows[2].id == '3'
            &&& t.windows[3].startx == 36 && t.windows[3].starty == 13 && t.windows[3].id == '4'
            &&& forall|i: int|
                0 <= i < NUM_WINDOWS ==> (#[trigger] t.windows[i]).files
                    == crate::window_spec::default_file_names()
        }),
{
    assert(s.windows[0].files.len() == 0 && s.windows[1].files.len() == 0);
    assert(s.windows[2].files.len() == 0 && s.windows[3].files.len() == 0);
    assert(s.windows[0].startx == 1 && s.windows[2].startx == 1);
    assert(s.windows[0].displaying_files && s.windows[1].displaying_files);
    assert(s.windows[2].displaying_files && s.windows[3].displaying_files);
    assert(s.windows[0].starty == 2);
    let t = s.initialize().0;
    assert(seq![] + crate::window_spec::default_file_names()
        =~= crate::window_spec::default_file_names());
    assert forall|i: int| 0 <= i < NUM_WINDOWS implies (#[trigger] t.windows[i]).files
        == crate::window_spec::default_file_names() by {
        assert(t.windows[i].files == seq![] + crate::window_spec::default_file_names());
    }
}

/// On an empty input line, with the cursor in the window's first column,
/// typing a character and pressing Enter hands exactly that character to
/// the waiting program and lets it run again.
pub proof fn lemma_typed_character_is_the_input(w: WindowView, c: char)
    requires
        w.wf(),
        w.status == CurrentSwim::AwaitingInput,
        w.num_letters == 0,
        w.cursorx == w.startx,
    ensures
        ({
            let t = w.add_letter(c).0;
            &&& t.enterinput_ok()
            &&& t.enterinput().inpstring == seq![c]
            &&& t.enterinput().status == CurrentSwim::Running
        }),
{
    let t = w.add_letter(c).0;
    assert(t.num_letters == 2);
    assert(t.text[crate::window_spec::cell_index(0, t.text_row(t.inputy as int))] == c);
    assert(t.input_line() =~= seq![c]);
}

proof fn lemma_finish_window_keeps_wf(s: SwimView, i: int, res: Option<TickStatus>)
    requires
        s.wf(),
        0 <= i < NUM_WINDOWS,
    ensures
        s.finish_window(i, res).0.wf(),
        all_on_screen(s.finish_window(i, res).1),
{
    let w = s.windows[i];
    assert(w.wf());
    assert(w.tick_end(res).0.wf());
    lemma_tick_end_on_screen(w, res);
    let t = s.finish_window(i, res).0;
    assert forall|j: int| 0 <= j < NUM_WINDOWS implies (#[trigger] t.windows[j]).wf() by {
        if j != i {
            assert(t.windows[j] == s.windows[j]);
        }
    }
    if !t.init {
        assert forall|j: int| 0 <= j < NUM_WINDOWS implies {
            &&& (#[trigger] t.windows[j]).files.len() == 0
            &&& t.windows[j].startx == 1
            &&& t.windows[j].starty == 2
            &&& t.windows[j].displaying_files
        } by {
            if j != i {
                assert(t.windows[j] == s.windows[j]);
            }
        }
    }
    if t.init {
        assert forall|j: int| 0 <= j < NUM_WINDOWS implies (#[trigger] t.windows[j]).files
            == crate::window_spec::default_file_names() by {
            if j != i {
                assert(t.windows[j] == s.windows[j]);
            }
        }
    }
}

proof fn lemma_tick_begin_keeps_wf(s: SwimView, i: int)
    requires
        s.wf(),
        0 <= i < NUM_WINDOWS,
    ensures
        s.window_tick_begin(i).0.wf(),
{
    let t = s.window_tick_begin(i).0;
    assert(s.windows[i].wf());
    assert forall|j: int| 0 <= j < NUM_WINDOWS implies (#[trigger] t.windows[j]).wf() by {
        if j != i {
            assert(t.windows[j] == s.windows[j]);
        }
    }
    if !t.init {
        assert forall|j: int| 0 <= j < NUM_WINDOWS implies {
            &&& (#[trigger] t.windows[j]).files.len() == 0
            &&& t.windows[j].startx == 1
            &&& t.windows[j].starty == 2
            &&& t.windows[j].displaying_files
        } by {
            if j != i {
                assert(t.windows[j] == s.windows[j]);
            }
        }
    }
    if t.init {
        assert forall|j: int| 0 <= j < NUM_WINDOWS implies (#[trigger] t.windows[j]).files
            == crate::window_spec::default_file_names() by {
            if j != i {
                assert(t.windows[j] == s.windows[j]);
            }
        }
    }
}

proof fn lemma_schedule_and_step_on_screen(s: SwimView)
    requires
        s.wf(),
        s.tick_schedule_ok(),
    ensures
        all_on_screen(s.schedule_and_step().1),
{
    lemma_schedule(s);
    let (s1, e1, r) = s.tick_schedule();
    lemma_tick_on_screen(s, 0, seq![], None);
    match r {
        Some(n) => {
            lemma_tick_begin_keeps_wf(s1, n as int);
            let (s2, run, input) = s1.window_tick_begin(n as int);
            if !run {
                lemma_finish_window_keeps_wf(s2, n as int, None);
                let (s3, e3) = s2.finish_window(n as int, None);
                lemma_tick_on_screen(s3, 0, seq![], None);
                lemma_concat_on_screen(e1, e3);
                lemma_concat_on_screen(e1 + e3, s3.plot_ins_counts());
            }
        },
        None => {
            lemma_tick_on_screen(s1, 0, seq![], None);
            lemma_concat_on_screen(e1, s1.plot_ins_counts());
        },
    }
}

proof fn lemma_window_initialize_wf(w: WindowView, am: char, slot: usize)
    requires
        w.layout_ok(),
        w.initialize_ok(),
        w.displaying_files,
    ensures
        w.initialize(am, slot).0.wf(),
        w.initialize(am, slot).0.files == w.files + crate::window_spec::default_file_names(),
{
}

/// Setting the console up leaves it well-formed.
proof fn lemma_initialize_keeps_wf(s: SwimView)
    requires
        s.wf(),
        !s.init,
    ensures
        s.initialize().0.wf(),
{
    lemma_initialize_layout(s);
    assert(s.windows[0].wf() && s.windows[1].wf() && s.windows[2].wf() && s.windows[3].wf());
    assert(s.windows[0].files.len() == 0 && s.windows[1].files.len() == 0);
    assert(s.windows[2].files.len() == 0 && s.windows[3].files.len() == 0);
    assert(s.windows[0].starty == 2 && s.windows[1].starty == 2);
    assert(s.windows[2].starty == 2 && s.windows[3].starty == 2);
    assert(s.windows[0].displaying_files && s.windows[1].displaying_files);
    assert(s.windows[2].displaying_files && s.windows[3].displaying_files);
    let (s1, e1) = s.setup_window(0);
    lemma_window_initialize_wf(s.placed(0), '1', 0);
    let (s2, e2) = s1.setup_window(1);
    lemma_window_initialize_wf(s1.placed(1), '2', 1);
    let (s3, e3) = s2.setup_window(2);
    lemma_window_initialize_wf(s2.placed(2), '3', 2);
    let (s4, e4) = s3.setup_window(3);
    lemma_window_initialize_wf(s3.placed(3), '4', 3);
    let t = s.initialize().0;
    assert(t.windows[0].wf() && t.windows[1].wf() && t.windows[2].wf() && t.windows[3].wf());
    assert forall|j: int| 0 <= j < NUM_WINDOWS implies (#[trigger] t.windows[j]).wf() by {
    }
}

/// Every event of a timer tick draws on the screen only.
pub proof fn lemma_tick_event_on_screen(s: SwimView, event: TickEvent)
    requires
        s.wf(),
        s.tick_ok(event),
    ensures
        all_on_screen(s.tick(event).1),
{
    match event {
        TickEvent::Timer => {
            let (s1, e1) = s.tick_start();
            lemma_tick_on_screen(s, 0, seq![], None);
            if !s.init {
                lemma_initialize_keeps_wf(s);
            }
            assert(s1.wf());
            let a = s1.active_win;
            lemma_tick_begin_keeps_wf(s1, a as int);
            let (s2, run, input) = s1.window_tick_begin(a as int);
            if !run {
                lemma_finish_window_keeps_wf(s2, a as int, None);
                let (s3, e3) = s2.finish_window(a as int, None);
                lemma_schedule_and_step_on_screen(s3);
                lemma_concat_on_screen(e1, e3);
                lemma_concat_on_screen(e1 + e3, s3.schedule_and_step().1);
            }
        },
        TickEvent::Stepped(res) => match s.phase {
            TickPhase::ActiveStep(a) => {
                assert(s.idle().wf());
                lemma_finish_window_keeps_wf(s.idle(), a as int, Some(res));
                let (s1, e1) = s.idle().finish_window(a as int, Some(res));
                lemma_schedule_and_step_on_screen(s1);
                lemma_concat_on_screen(e1, s1.schedule_and_step().1);
            },
            TickPhase::ScheduledStep(n) => {
                assert(s.idle().wf());
                lemma_finish_window_keeps_wf(s.idle(), n as int, Some(res));
                let (s1, e1) = s.idle().finish_window(n as int, Some(res));
                lemma_tick_on_screen(s1, 0, seq![], None);
                lemma_concat_on_screen(e1, s1.plot_ins_counts());
            },
            TickPhase::Idle => {},
        },
    }
}

/// A timer tick asks for at most two program steps: first one of the window
/// with the focus, then the scheduled one, of the first window; after the
/// report of the scheduled step the tick is over. When the console answers
/// `Done` it waits for the next timer event.
pub proof fn lemma_tick_steps(s: SwimView, event: TickEvent)
    requires
        s.wf(),
        s.tick_ok(event),
    ensures
        ({
            let (t, _e, act) = s.tick(event);
            &&& act is Done ==> t.phase == TickPhase::Idle
            &&& act matches TickActionView::Step { window, .. } ==> {
                ||| event == TickEvent::Timer && t.phase == TickPhase::ActiveStep(window)
                    && window == t.active_win
                ||| window == 0 && t.phase == TickPhase::ScheduledStep(0)
            }
            &&& s.phase is ScheduledStep ==> act is Done
        }),
{
}

// ----------------------------------------------------------------------
// What the operations are for
// ----------------------------------------------------------------------
proof fn lemma_running_prefix_counts_running(s: SwimView, n: int)
    requires
        0 <= n <= s.windows.len(),
    ensures
        s.running_prefix(n) > 0 <==> exists|j: int|
            0 <= j < n && (#[trigger] s.windows[j]).status == CurrentSwim::Running,
    decreases n,
{
    if n > 0 {
        lemma_running_prefix_counts_running(s, n - 1);
        if s.windows[n - 1].status == CurrentSwim::Running {
            assert(s.windows[n - 1].status == CurrentSwim::Running);
        } else {
            if exists|j: int| 0 <= j < n && (#[trigger] s.windows[j]).status == CurrentSwim::Running {
                let j = choose|j: int|
                    0 <= j < n && (#[trigger] s.windows[j]).status == CurrentSwim::Running;
                assert(j < n - 1);
            }
        }
    }
}

/// The number of running windows that the scheduler uses is positive
/// exactly when some window's status is Running.
pub proof fn lemma_schedule_counts_only_running_windows_count(s: SwimView)
    requires
        s.windows.len() == NUM_WINDOWS,
    ensures
        s.running_count() > 0 <==> exists|j: int|
            0 <= j < NUM_WINDOWS && (#[trigger] s.windows[j]).status == CurrentSwim::Running,
{
    lemma_running_prefix_counts_running(s, NUM_WINDOWS as int);
}

/// The scheduler counts a step exactly when some window's status is
/// Running: then the first window's counter goes up by one; when no window
/// is Running (a program that waits for input does not count) no counter
/// changes.
pub proof fn lemma_schedule_counts_only_running_windows(s: SwimView)
    requires
        s.wf(),
        s.tick_schedule_ok(),
    ensures
        s.running_count() > 0 <==> exists|j: int|
            0 <= j < NUM_WINDOWS && (#[trigger] s.windows[j]).status == CurrentSwim::Running,
        (forall|j: int| 0 <= j < NUM_WINDOWS ==> (#[trigger] s.windows[j]).status
            != CurrentSwim::Running) ==> s.tick_schedule().0.window_ticks == s.window_ticks
            && s.tick_schedule().2 is None,
        (exists|j: int|
            0 <= j < NUM_WINDOWS && (#[trigger] s.windows[j]).status == CurrentSwim::Running)
            ==> s.tick_schedule().0.window_ticks[0] == s.window_ticks[0] + 1,
{
    lemma_running_prefix_counts_running(s, NUM_WINDOWS as int);
}

/// A program that reports that it waits for input, in a console where no
/// other window runs a program, gets no scheduled step: the tick counters
/// stay as they were. Later timer ticks, while no window runs a program,
/// leave them as they are too.
pub proof fn lemma_waiting_program_is_not_counted(s: SwimView, event: TickEvent)
    requires
        s.wf(),
        s.tick_ok(event),
        forall|j: int|
            0 <= j < NUM_WINDOWS && !(s.phase == TickPhase::ActiveStep(j as usize)) ==> (
            #[trigger] s.windows[j]).status != CurrentSwim::Running,
        event == TickEvent::Timer || event == TickEvent::Stepped(TickStatus::AwaitInput),
        event == TickEvent::Timer ==> s.phase == TickPhase::Idle,
        event == TickEvent::Stepped(TickStatus::AwaitInput) ==> s.phase is ActiveStep,
    ensures
        s.tick(event).0.window_ticks == s.window_ticks,
{
    match event {
        TickEvent::Timer => {
            let (s1, e1) = s.tick_start();
            if !s.init {
                lemma_initialize_keeps_wf(s);
                lemma_initialize_layout(s);
                assert forall|j: int| 0 <= j < NUM_WINDOWS implies (#[trigger] s1.windows[j]).status
                    != CurrentSwim::Running by {
                    assert(s1.windows[j].status == s.windows[j].status);
                }
            }
            assert(s1.wf());
            let a = s1.active_win;
            lemma_tick_begin_keeps_wf(s1, a as int);
            let (s2, run, input) = s1.window_tick_begin(a as int);
            assert(!run);
            lemma_finish_window_keeps_wf(s2, a as int, None);
            let (s3, e3) = s2.finish_window(a as int, None);
            assert forall|j: int| 0 <= j < NUM_WINDOWS implies (#[trigger] s3.windows[j]).status
                != CurrentSwim::Running by {
                assert(s3.windows[j].status == s1.windows[j].status);
            }
            lemma_schedule_counts_only_running_windows(s3);
        },
        TickEvent::Stepped(res) => {
            let a = s.phase->ActiveStep_0;
            lemma_finish_window_keeps_wf(s.idle(), a as int, Some(res));
            let (s1, e1) = s.idle().finish_window(a as int, Some(res));
            assert forall|j: int| 0 <= j < NUM_WINDOWS implies (#[trigger] s1.windows[j]).status
                != CurrentSwim::Running by {
                if j != a {
                    assert(s1.windows[j] == s.windows[j]);
                }
            }
            lemma_schedule_counts_only_running_windows(s1);
        },
    }
}

/// Setting a window up writes each starting file into the window's own file
/// system with its own program: every write goes to window `slot`, the file
/// named "average" gets the averaging program, "pi" the pi program, "hello"
/// and "nums" theirs; and the four files are written in that order.
pub proof fn lemma_create_files_writes_each_program(w: WindowView, slot: usize)
    ensures
        ({
            let e = w.create_files(slot).1;
            &&& forall|i: int|
                0 <= i < e.len() ==> match #[trigger] e[i] {
                    EffectView::WriteFile { window, name, contents } => {
                        &&& window == slot
                        &&& name == HELLO_NAME@ ==> contents == HELLO_PROGRAM@
                        &&& name == NUMS_NAME@ ==> contents == NUMS_PROGRAM@
                        &&& name == AVERAGE_NAME@ ==> contents == AVERAGE_PROGRAM@
                        &&& name == PI_NAME@ ==> contents == PI_PROGRAM@
                    },
                    _ => false,
                }
            &&& e.len() == 4
            &&& (e[0] matches EffectView::WriteFile { name, .. } && name == HELLO_NAME@)
            &&& (e[1] matches EffectView::WriteFile { name, .. } && name == NUMS_NAME@)
            &&& (e[2] matches EffectView::WriteFile { name, .. } && name == AVERAGE_NAME@)
            &&& (e[3] matches EffectView::WriteFile { name, .. } && name == PI_NAME@)
        }),
{
    reveal_strlit("hello");
    reveal_strlit("nums");
    reveal_strlit("average");
    reveal_strlit("pi");
    assert(HELLO_NAME@.len() == 5);
    assert(NUMS_NAME@.len() == 4);
    assert(AVERAGE_NAME@.len() == 7);
    assert(PI_NAME@.len() == 2);
    let e = w.create_files(slot).1;
    assert(e[0] matches EffectView::WriteFile { name, .. } && name == HELLO_NAME@);
    assert(e[1] matches EffectView::WriteFile { name, .. } && name == NUMS_NAME@);
    assert(e[2] matches EffectView::WriteFile { name, .. } && name == AVERAGE_NAME@);
    assert(e[3] matches EffectView::WriteFile { name, .. } && name == PI_NAME@);
}

proof fn lemma_file_list_entries(w: WindowView, n: int)
    requires
        0 <= n <= w.files.len(),
    ensures
        w.file_list(n).len() == 2 * n,
        forall|f: int|
            0 <= f < n ==> {
                &&& (#[trigger] w.file_list(n)[2 * f]) matches EffectView::PlotStr {
                    color,
                    ..
                } && (color == highlight_color() <==> f == w.active_file)
                &&& w.file_list(n)[2 * f + 1] matches EffectView::PlotStr {
                    text,
                    color,
                    ..
                } && text == w.files[f] && (color == highlight_color() <==> f
                    == w.active_file)
            },
    decreases n,
{
    if n > 0 {
        lemma_file_list_entries(w, n - 1);
        let prev = w.file_list(n - 1);
        let l = w.file_list(n);
        assert(l == prev + w.file_entry(n - 1));
        assert forall|f: int| 0 <= f < n implies {
            &&& (#[trigger] l[2 * f]) matches EffectView::PlotStr {
                color,
                ..
            } && (color == highlight_color() <==> f == w.active_file)
            &&& l[2 * f + 1] matches EffectView::PlotStr { text, color, .. } && text
                == w.files[f] && (color == highlight_color() <==> f == w.active_file)
        } by {
            if f < n - 1 {
                assert(l[2 * f] == prev[2 * f]);
                assert(l[2 * f + 1] == prev[2 * f + 1]);
            } else {
                assert(l[2 * f] == w.file_entry(f)[0]);
                assert(l[2 * f + 1] == w.file_entry(f)[1]);
            }
        }
    }
}

/// The file list draws two strings per file: for file `f`, the blank and
/// then the name `files[f]`, both in the highlight colors exactly when `f`
/// is the selected file, and in other colors for every other file.
pub proof fn lemma_display_files_highlights_only_selected(w: WindowView)
    ensures
        w.display_files().len() == 2 * w.files.len(),
        forall|f: int|
            0 <= f < w.files.len() ==> {
                &&& (#[trigger] w.display_files()[2 * f]) matches EffectView::PlotStr {
                    color,
                    ..
                } && (color == highlight_color() <==> f == w.active_file)
                &&& w.display_files()[2 * f + 1] matches EffectView::PlotStr {
                    text,
                    color,
                    ..
                } && text == w.files[f] && (color == highlight_color() <==> f
                    == w.active_file)
            },
{
    lemma_file_list_entries(w, w.files.len() as int);
}

/// `r` on the file list of the window with the focus runs the selected file
/// in that window: its only effect asks window `active_win` to run the
/// selected file, and that window's status becomes Running with its program
/// loaded; the other windows do not change.
pub proof fn lemma_r_runs_in_focused_window(s: SwimView)
    requires
        s.wf(),
        s.key_ok(DecodedKey::Unicode('r')),
        s.active().status == CurrentSwim::DisplayingFiles,
    ensures
        ({
            let (t, e) = s.key(DecodedKey::Unicode('r'));
            &&& e.len() == 1
            &&& e[0] matches EffectView::RunFile { window, name } && window == s.active_win
                && name == s.active().files[s.active().active_file as int]
            &&& t.windows[s.active_win as int].status == CurrentSwim::Running
            &&& t.windows[s.active_win as int].program_loaded
            &&& forall|j: int|
                0 <= j < NUM_WINDOWS && j != s.active_win ==> #[trigger] t.windows[j]
                    == s.windows[j]
        }),
{
    assert(drawable('r'));
}

/// Running the selected file of a window asks for exactly one thing: that
/// window `slot` runs that file.
pub proof fn lemma_run_active_file_request(w: WindowView, slot: usize)
    ensures
        w.run_active_file(slot).1.len() == 1,
        w.run_active_file(slot).1[0] matches EffectView::RunFile { window, name } && window
            == slot && name == w.files[w.active_file as int],
        w.run_active_file(slot).0.status == CurrentSwim::Running,
{
}

/// F6 on the window with the focus, while it runs a program, shows a
/// program's output or waits for input, returns it to its file list: its
/// status becomes DisplayingFiles, nothing else of it changes, and what is
/// drawn is its file list. In any other status F6 does nothing.
pub proof fn lemma_f6_returns_to_file_list(s: SwimView)
    requires
        s.wf(),
    ensures
        ({
            let (t, e) = s.key(DecodedKey::RawKey(KeyCode::F6));
            let st = s.active().status;
            &&& (st == CurrentSwim::Running || st == CurrentSwim::DisplayingOutput || st
                == CurrentSwim::AwaitingInput) ==> {
                &&& t.windows[s.active_win as int] == (WindowView {
                    status: CurrentSwim::DisplayingFiles,
                    ..s.active()
                })
                &&& e == t.windows[s.active_win as int].display_files()
                &&& e.len() == 2 * s.active().files.len()
            }
            &&& !(st == CurrentSwim::Running || st == CurrentSwim::DisplayingOutput || st
                == CurrentSwim::AwaitingInput) ==> t == s && e.len() == 0
            &&& t.active_win == s.active_win
            &&& forall|j: int|
                0 <= j < NUM_WINDOWS && j != s.active_win ==> #[trigger] t.windows[j]
                    == s.windows[j]
        }),
{
    let w2 = WindowView { status: CurrentSwim::DisplayingFiles, ..s.active() };
    lemma_display_files_highlights_only_selected(w2);
    let (t, e) = s.key(DecodedKey::RawKey(KeyCode::F6));
    let st = s.active().status;
    if !(st == CurrentSwim::Running || st == CurrentSwim::DisplayingOutput || st
        == CurrentSwim::AwaitingInput) {
        assert(t == s);
    }
}

} // verus!
