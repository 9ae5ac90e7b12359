use bare_metal_swim::screen::{is_drawable, Color, ColorCode, Effect};
use bare_metal_swim::window::SwimInterface;
use bare_metal_swim::window_spec::{CurrentSwim, TickStatus};

fn cyan() -> ColorCode {
    ColorCode::new(Color::Cyan, Color::Black)
}

fn cursor() -> ColorCode {
    ColorCode::new(Color::Black, Color::White)
}

fn blank() -> ColorCode {
    ColorCode::new(Color::Black, Color::Black)
}

#[test]
fn a_new_window_is_in_the_top_left_corner() {
    let w = SwimInterface::default();
    assert_eq!(w.startx(), 1);
    assert_eq!(w.starty(), 2);
    assert_eq!(w.cursorx(), 1);
    assert_eq!(w.cursory(), 2);
    assert_eq!(w.topi(), 0);
    assert_eq!(w.status(), CurrentSwim::DisplayingFiles);
    assert_eq!(w.file_count(), 0);
    assert_eq!(w.num_letters(), 1);
    assert_eq!(w.text_at(34, 39), ' ');
}

#[test]
fn sidescroll_moves_and_wraps() {
    let mut w = SwimInterface::default();
    let mut out = Vec::new();
    w.sidescroll(true, &mut out);
    assert_eq!(w.cursorx(), 2);
    assert_eq!(
        out,
        vec![
            Effect::Plot { ch: ' ', col: 1, row: 2, color: cyan() },
            Effect::Plot { ch: ' ', col: 2, row: 2, color: cursor() },
        ]
    );
    let mut out = Vec::new();
    w.sidescroll(false, &mut out);
    assert_eq!(w.cursorx(), 1);
    w.sidescroll(false, &mut out);
    assert_eq!(w.cursorx(), 34);
    w.sidescroll(true, &mut out);
    assert_eq!(w.cursorx(), 1);
}

#[test]
fn verticalscroll_moves_then_scrolls() {
    let mut w = SwimInterface::default();
    let mut out = Vec::new();
    w.verticalscroll(false, &mut out);
    assert!(out.is_empty());
    for _ in 0..9 {
        w.verticalscroll(true, &mut out);
    }
    assert_eq!(w.cursory(), 11);
    assert_eq!(w.topi(), 0);
    let mut out = Vec::new();
    w.verticalscroll(true, &mut out);
    assert_eq!(w.topi(), 1);
    assert_eq!(w.cursory(), 11);
    assert_eq!(out.len(), 330);
    assert_eq!(out[0], Effect::Plot { ch: ' ', col: 1, row: 2, color: cyan() });
    for _ in 0..40 {
        let mut out = Vec::new();
        w.verticalscroll(true, &mut out);
    }
    assert_eq!(w.topi(), 30);
    for _ in 0..9 {
        w.verticalscroll(false, &mut out);
    }
    assert_eq!(w.cursory(), 2);
    w.verticalscroll(false, &mut out);
    assert_eq!(w.topi(), 29);
}

#[test]
fn typing_and_backspace() {
    let mut w = SwimInterface::default();
    let mut out = Vec::new();
    w.add_letter('x', &mut out);
    assert_eq!(out, vec![Effect::Plot { ch: 'x', col: 1, row: 2, color: cyan() }]);
    assert_eq!(w.text_at(0, 0), 'x');
    assert_eq!(w.cursorx(), 2);
    assert_eq!(w.num_letters(), 2);
    let mut out = Vec::new();
    w.backspace(&mut out);
    assert_eq!(w.cursorx(), 1);
    assert_eq!(w.text_at(0, 0), ' ');
    assert_eq!(
        out,
        vec![
            Effect::Plot { ch: ' ', col: 2, row: 2, color: blank() },
            Effect::Plot { ch: ' ', col: 1, row: 2, color: cursor() },
            Effect::Plot { ch: ' ', col: 1, row: 2, color: cursor() },
        ]
    );
    let mut out = Vec::new();
    w.backspace(&mut out);
    assert!(out.is_empty());
}

#[test]
fn typing_at_the_end_of_a_row_goes_to_the_next() {
    let mut w = SwimInterface::default();
    let mut out = Vec::new();
    w.sidescroll(false, &mut out);
    assert_eq!(w.cursorx(), 34);
    let mut out = Vec::new();
    w.add_letter('z', &mut out);
    assert_eq!(w.text_at(33, 0), 'z');
    assert_eq!(w.cursorx(), 1);
    assert_eq!(w.cursory(), 3);
    assert_eq!(
        out,
        vec![
            Effect::Plot { ch: 'z', col: 34, row: 2, color: cyan() },
            Effect::Plot { ch: ' ', col: 1, row: 3, color: cursor() },
            Effect::Plot { ch: ' ', col: 1, row: 3, color: cursor() },
        ]
    );
    // Backspace at the start of a row goes to the end of the row above.
    let mut out = Vec::new();
    w.backspace(&mut out);
    assert_eq!(w.cursorx(), 34);
    assert_eq!(w.cursory(), 2);
    assert_eq!(w.text_at(33, 0), 'z');
}

#[test]
fn enter_moves_down_then_scrolls() {
    let mut w = SwimInterface::default();
    let mut out = Vec::new();
    w.enter(&mut out);
    assert_eq!(w.cursory(), 3);
    assert_eq!(
        out,
        vec![
            Effect::Plot { ch: ' ', col: 1, row: 2, color: blank() },
            Effect::Plot { ch: ' ', col: 1, row: 3, color: cursor() },
        ]
    );
    for _ in 0..8 {
        w.enter(&mut out);
    }
    assert_eq!(w.cursory(), 11);
    let mut out = Vec::new();
    w.enter(&mut out);
    assert_eq!(w.topi(), 1);
    assert_eq!(w.cursory(), 11);
    assert_eq!(out.len(), 330);
}

#[test]
fn borders_and_lines() {
    let w = SwimInterface::default();
    let mut out = Vec::new();
    w.normal_border(&mut out);
    assert_eq!(out.len(), 90);
    let white = ColorCode::new(Color::White, Color::Black);
    assert_eq!(out[0], Effect::Plot { ch: '.', col: 0, row: 1, color: white });
    assert_eq!(out[1], Effect::Plot { ch: '.', col: 0, row: 12, color: white });
    assert_eq!(out[88], Effect::Plot { ch: 'F', col: 18, row: 1, color: cyan() });
    assert_eq!(out[89], Effect::Plot { ch: ' ', col: 19, row: 1, color: cyan() });
    let mut out = Vec::new();
    w.active_border(&mut out);
    assert_eq!(out.len(), 90);
    assert_eq!(
        out[0],
        Effect::Plot { ch: '.', col: 0, row: 1, color: ColorCode::new(Color::White, Color::Magenta) }
    );
    let mut out = Vec::new();
    w.clear_line(7, &mut out);
    assert_eq!(out.len(), 34);
    assert_eq!(out[33], Effect::Plot { ch: ' ', col: 34, row: 1, color: blank() });
    let mut out = Vec::new();
    w.clear_screen(&mut out);
    assert_eq!(out.len(), 330);
    assert_eq!(out[329], Effect::Plot { ch: ' ', col: 33, row: 11, color: blank() });
    let mut out = Vec::new();
    w.printscreen(&mut out);
    assert_eq!(out.len(), 330);
    let mut out = Vec::new();
    w.show_cursor(&mut out);
    assert_eq!(out, vec![Effect::Plot { ch: ' ', col: 1, row: 2, color: cursor() }]);
}

#[test]
fn initialize_creates_and_lists_files() {
    let mut w = SwimInterface::default();
    let mut out = Vec::new();
    w.initialize('7', 5, &mut out);
    assert_eq!(w.id(), '7');
    assert_eq!(out.len(), 90 + 4 + 8);
    assert_eq!(out[89], Effect::Plot { ch: '7', col: 19, row: 1, color: cyan() });
    match &out[90] {
        Effect::WriteFile { window, name, .. } => {
            assert_eq!(*window, 5);
            assert_eq!(name, "hello");
        }
        other => panic!("unexpected {:?}", other),
    }
    assert_eq!(w.file_count(), 4);
    let mut w2 = w;
    w2.change_active_file(false);
    assert_eq!(w2.active_file(), 3);
    w2.change_active_file(true);
    assert_eq!(w2.active_file(), 0);
}

#[test]
fn waiting_for_input_and_entering_it() {
    let mut w = SwimInterface::default();
    let mut out = Vec::new();
    w.initialize('1', 0, &mut out);
    w.run_active_file(0, &mut out);
    let (run, input) = w.tick_begin();
    assert!(run && input.is_none());
    let mut out = Vec::new();
    w.tick_end(Some(TickStatus::AwaitInput), &mut out);
    assert!(out.is_empty());
    assert_eq!(w.status(), CurrentSwim::AwaitingInput);
    assert_eq!(w.cursory(), 3);
    for c in ['4', '2'] {
        w.add_letter(c, &mut out);
    }
    // Each letter counts twice, so the line read is three columns long.
    assert_eq!(w.num_letters(), 4);
    w.enterinput();
    assert_eq!(w.pending_input(), vec!['4', '2', ' ']);
    assert_eq!(w.status(), CurrentSwim::Running);
    let (run, input) = w.tick_begin();
    assert!(run);
    assert_eq!(input, Some(vec!['4', '2', ' ']));
    let mut out = Vec::new();
    w.tick_end(Some(TickStatus::Continuing), &mut out);
    assert_eq!(w.status(), CurrentSwim::Running);
    w.tick_end(Some(TickStatus::Finished), &mut out);
    assert_eq!(w.status(), CurrentSwim::DisplayingOutput);
    assert!(out.is_empty());
}

#[test]
fn print_replaces_the_text_area() {
    let mut w = SwimInterface::default();
    let mut out = Vec::new();
    w.print("héllo".as_bytes(), &mut out);
    assert_eq!(out.len(), 331);
    assert_eq!(
        out[330],
        Effect::PlotStr { text: "héllo".to_string(), col: 1, row: 2, color: cyan() }
    );
    assert_eq!(w.outputy(), 3);
    assert_eq!(w.inputy(), 3);
}

#[test]
fn drawable_characters_are_printable_ascii_by_low_byte() {
    assert!(is_drawable('a'));
    assert!(is_drawable(' '));
    assert!(is_drawable('~'));
    assert!(!is_drawable('\n'));
    assert!(!is_drawable('\u{7f}'));
    assert!(is_drawable('\u{141}'));
    assert!(!is_drawable('\u{100}'));
}
