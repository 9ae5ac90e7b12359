use bare_metal_swim::keys::{DecodedKey, KeyCode};
use bare_metal_swim::screen::{Color, ColorCode, Effect};
use bare_metal_swim::swim::{Swim, TickAction};
use bare_metal_swim::swim_spec::TickEvent;
use bare_metal_swim::window_spec::{CurrentSwim, TickStatus};

fn on_screen(e: &Effect) -> bool {
    match e {
        Effect::Plot { col, row, .. } => *col < 80 && *row < 25,
        Effect::PlotStr { col, row, .. } => *col < 80 && *row < 25,
        Effect::PlotNum { col, row, .. } => *col < 80 && *row < 25,
        _ => true,
    }
}

/// Runs one timer tick; `step` plays the program of the window asked for.
fn tick(
    swim: &mut Swim,
    mut step: impl FnMut(&mut Swim, usize, Option<Vec<char>>) -> TickStatus,
) -> Vec<Effect> {
    let mut out = Vec::new();
    assert!(swim.accepts_tick(TickEvent::Timer));
    assert!(!swim.accepts_tick(TickEvent::Stepped(TickStatus::Continuing)));
    let mut act = swim.tick(TickEvent::Timer, &mut out);
    while let TickAction::Step { window, input } = act {
        let status = step(swim, window, input);
        assert!(swim.accepts_tick(TickEvent::Stepped(status)));
        assert!(!swim.accepts_tick(TickEvent::Timer));
        act = swim.tick(TickEvent::Stepped(status), &mut out);
    }
    assert!(out.iter().all(on_screen));
    out
}

fn no_program(_: &mut Swim, _: usize, _: Option<Vec<char>>) -> TickStatus {
    panic!("no program runs")
}

fn started() -> (Swim, Vec<Effect>) {
    let mut swim = Swim::default();
    let out = tick(&mut swim, no_program);
    (swim, out)
}

fn press(swim: &mut Swim, key: DecodedKey) -> Vec<Effect> {
    assert!(swim.accepts_key(key));
    let mut out = Vec::new();
    swim.key(key, &mut out);
    assert!(out.iter().all(on_screen));
    out
}

fn cyan() -> ColorCode {
    ColorCode::new(Color::Cyan, Color::Black)
}

#[test]
fn first_tick_sets_up_the_console() {
    let (swim, out) = started();
    assert!(swim.is_initialized());
    // Set-up (507 effects), the file list of the first window, the counters.
    assert_eq!(out.len(), 507 + 8 + 8);
    assert_eq!(out[507], out[1 + 90 + 4]);
    assert_eq!(
        out[0],
        Effect::PlotStr { text: "Header".to_string(), col: 0, row: 0, color: cyan() }
    );
    assert!(out.iter().all(on_screen));
    let corners = [(1, 2, '1'), (36, 2, '2'), (1, 13, '3'), (36, 13, '4')];
    for (i, (x, y, id)) in corners.iter().enumerate() {
        let w = swim.window(i);
        assert_eq!(w.startx(), *x);
        assert_eq!(w.starty(), *y);
        assert_eq!(w.id(), *id);
        assert_eq!(w.cursorx(), *x);
        assert_eq!(w.cursory(), *y);
        assert_eq!(w.file_count(), 4);
        assert_eq!(w.file_name(0), "hello");
        assert_eq!(w.file_name(1), "nums");
        assert_eq!(w.file_name(2), "average");
        assert_eq!(w.file_name(3), "pi");
    }
    assert!(swim.window(0).is_active());
    assert_eq!(swim.active_win(), 0);
}

#[test]
fn first_tick_writes_the_starting_files() {
    let (_swim, out) = started();
    let writes: Vec<(usize, String, String)> = out
        .iter()
        .filter_map(|e| match e {
            Effect::WriteFile { window, name, contents } => {
                Some((*window, name.clone(), contents.clone()))
            }
            _ => None,
        })
        .collect();
    assert_eq!(writes.len(), 16);
    for w in 0..4 {
        assert_eq!(writes[4 * w].0, w);
        assert_eq!(writes[4 * w].1, "hello");
        assert_eq!(writes[4 * w].2, "print(\"Hello, world!\")");
        assert_eq!(writes[4 * w + 1].1, "nums");
        assert_eq!(writes[4 * w + 1].2, "print(1)\nprint(257)\n");
        assert_eq!(writes[4 * w + 2].1, "average");
        assert_eq!(writes[4 * w + 3].1, "pi");
    }
}

#[test]
fn file_list_highlights_the_active_file() {
    let (_swim, out) = started();
    // Window 1's list comes after its border (90 cells) and its writes.
    let list = &out[1 + 90 + 4..1 + 90 + 4 + 8];
    let black_on_cyan = ColorCode::new(Color::Black, Color::Cyan);
    let black = ColorCode::new(Color::Black, Color::Black);
    assert_eq!(
        list[0],
        Effect::PlotStr { text: "           ".to_string(), col: 1, row: 2, color: black_on_cyan }
    );
    assert_eq!(
        list[1],
        Effect::PlotStr { text: "hello".to_string(), col: 1, row: 2, color: black_on_cyan }
    );
    assert_eq!(
        list[2],
        Effect::PlotStr { text: "            ".to_string(), col: 12, row: 2, color: black }
    );
    assert_eq!(list[3], Effect::PlotStr { text: "nums".to_string(), col: 12, row: 2, color: cyan() });
    assert_eq!(list[5], Effect::PlotStr { text: "average".to_string(), col: 23, row: 2, color: cyan() });
    assert_eq!(list[7], Effect::PlotStr { text: "pi".to_string(), col: 1, row: 3, color: cyan() });
}

#[test]
fn function_keys_move_the_focus() {
    let (mut swim, _) = started();
    let out = press(&mut swim, DecodedKey::RawKey(KeyCode::F2));
    assert_eq!(swim.active_win(), 1);
    assert!(!swim.window(0).is_active());
    // Old border in white on black, new border in white on magenta.
    assert_eq!(out.len(), 90 + 90);
    assert_eq!(
        out[0],
        Effect::Plot { ch: '.', col: 0, row: 1, color: ColorCode::new(Color::White, Color::Black) }
    );
    assert_eq!(
        out[90],
        Effect::Plot { ch: '.', col: 35, row: 1, color: ColorCode::new(Color::White, Color::Magenta) }
    );
    assert_eq!(
        out[179],
        Effect::Plot { ch: '2', col: 54, row: 1, color: cyan() }
    );
    let again = press(&mut swim, DecodedKey::RawKey(KeyCode::F2));
    assert!(again.is_empty());
    press(&mut swim, DecodedKey::RawKey(KeyCode::F4));
    assert_eq!(swim.active_win(), 3);
    press(&mut swim, DecodedKey::RawKey(KeyCode::F3));
    assert_eq!(swim.active_win(), 2);
    press(&mut swim, DecodedKey::RawKey(KeyCode::F1));
    assert_eq!(swim.active_win(), 0);
}

#[test]
fn arrow_keys_cycle_through_the_files() {
    let (mut swim, _) = started();
    assert_eq!(swim.window(0).active_file(), 0);
    press(&mut swim, DecodedKey::RawKey(KeyCode::ArrowLeft));
    assert_eq!(swim.window(0).active_file(), 3);
    press(&mut swim, DecodedKey::RawKey(KeyCode::ArrowRight));
    assert_eq!(swim.window(0).active_file(), 0);
    press(&mut swim, DecodedKey::RawKey(KeyCode::ArrowDown));
    press(&mut swim, DecodedKey::RawKey(KeyCode::ArrowUp));
    assert_eq!(swim.window(0).active_file(), 2);
    press(&mut swim, DecodedKey::RawKey(KeyCode::ArrowRight));
    press(&mut swim, DecodedKey::RawKey(KeyCode::ArrowRight));
    assert_eq!(swim.window(0).active_file(), 0);
    // The other windows keep their selection.
    assert_eq!(swim.window(1).active_file(), 0);
}

#[test]
fn arrow_keys_before_set_up_are_refused() {
    let swim = Swim::default();
    assert!(!swim.accepts_key(DecodedKey::RawKey(KeyCode::ArrowLeft)));
    assert!(!swim.accepts_key(DecodedKey::Unicode('r')));
    assert!(swim.accepts_key(DecodedKey::RawKey(KeyCode::F2)));
}

#[test]
fn r_runs_the_highlighted_file() {
    let (mut swim, _) = started();
    press(&mut swim, DecodedKey::RawKey(KeyCode::ArrowRight));
    let out = press(&mut swim, DecodedKey::Unicode('r'));
    assert_eq!(out, vec![Effect::RunFile { window: 0, name: "nums".to_string() }]);
    let w = swim.window(0);
    assert_eq!(w.status(), CurrentSwim::Running);
    assert!(w.program_loaded());
    assert!(w.running_file());
    assert_eq!(w.cursorx(), 1);
    assert_eq!(w.cursory(), 0);
    assert_eq!(w.outputy(), 0);
    assert_eq!(w.num_letters(), 0);
    // A second 'r' does nothing while the program runs.
    let again = press(&mut swim, DecodedKey::Unicode('r'));
    assert!(again.is_empty());
}

#[test]
fn f6_returns_to_the_file_list() {
    let (mut swim, _) = started();
    press(&mut swim, DecodedKey::Unicode('r'));
    let out = press(&mut swim, DecodedKey::RawKey(KeyCode::F6));
    assert_eq!(swim.window(0).status(), CurrentSwim::DisplayingFiles);
    assert_eq!(out.len(), 8);
    let idle = press(&mut swim, DecodedKey::RawKey(KeyCode::F6));
    assert!(idle.is_empty());
}

#[test]
fn a_finished_program_leaves_its_output() {
    let (mut swim, _) = started();
    press(&mut swim, DecodedKey::Unicode('r'));
    let mut printed = Vec::new();
    let mut steps = Vec::new();
    let out = tick(&mut swim, |swim, window, input| {
        steps.push((window, input));
        swim.window_print(window, b"Hello, world!", &mut printed);
        TickStatus::Finished
    });
    assert_eq!(steps, vec![(0, None)]);
    // The text area (33 columns of 10 rows) is erased, then the text drawn.
    assert_eq!(printed.len(), 331);
    assert_eq!(
        printed[330],
        Effect::PlotStr { text: "Hello, world!".to_string(), col: 1, row: 2, color: cyan() }
    );
    let w = swim.window(0);
    assert_eq!(w.outputy(), 1);
    assert_eq!(w.inputy(), 3);
    assert_eq!(w.status(), CurrentSwim::DisplayingOutput);
    assert!(!w.running_file());
    // Nothing runs any more: only the counters are drawn.
    assert_eq!(out.len(), 8);
    assert_eq!(swim.window_ticks(0), 0);
}

#[test]
fn output_that_is_not_utf8_is_ignored() {
    let (mut swim, _) = started();
    let mut out = Vec::new();
    swim.window_print(0, &[0xff, 0xfe], &mut out);
    assert!(out.is_empty());
    assert_eq!(swim.window(0).outputy(), 2);
}

#[test]
fn typed_input_reaches_the_program() {
    let (mut swim, _) = started();
    press(&mut swim, DecodedKey::RawKey(KeyCode::ArrowLeft));
    press(&mut swim, DecodedKey::Unicode('r'));
    tick(&mut swim, |swim, window, input| {
        assert_eq!((window, input), (0, None));
        let mut out = Vec::new();
        swim.window_print(window, b"Num terms:", &mut out);
        TickStatus::AwaitInput
    });
    let w = swim.window(0);
    assert_eq!(w.status(), CurrentSwim::AwaitingInput);
    assert_eq!(w.num_letters(), 0);
    assert_eq!(w.cursory(), 3);
    assert_eq!(w.outputy(), 0);
    // Enter on an empty line would read a line of -1 characters.
    assert!(!swim.accepts_key(DecodedKey::Unicode('\n')));
    let out = press(&mut swim, DecodedKey::Unicode('5'));
    assert_eq!(out, vec![Effect::Plot { ch: '5', col: 1, row: 3, color: cyan() }]);
    assert_eq!(swim.window(0).num_letters(), 2);
    assert_eq!(swim.window(0).cursorx(), 2);
    assert_eq!(swim.window(0).text_at(0, 1), '5');
    let out = press(&mut swim, DecodedKey::Unicode('\n'));
    assert!(out.is_empty());
    let w = swim.window(0);
    assert_eq!(w.status(), CurrentSwim::Running);
    assert_eq!(w.pending_input(), vec!['5']);
    assert_eq!(w.cursorx(), 1);
    assert_eq!(w.cursory(), 2);
    let mut inputs = Vec::new();
    tick(&mut swim, |_, window, input| {
        inputs.push((window, input));
        TickStatus::Finished
    });
    assert_eq!(inputs, vec![(0, Some(vec!['5']))]);
    assert!(swim.window(0).pending_input().is_empty());
}

#[test]
fn the_scheduler_steps_the_first_window() {
    let (mut swim, _) = started();
    press(&mut swim, DecodedKey::RawKey(KeyCode::F3));
    press(&mut swim, DecodedKey::Unicode('r'));
    let mut steps = Vec::new();
    let out = tick(&mut swim, |_, window, _| {
        steps.push(window);
        TickStatus::Continuing
    });
    // The focused window steps; the scheduled extra step goes to the first
    // window, which runs nothing and redraws its file list.
    assert_eq!(steps, vec![2]);
    assert_eq!(swim.window_ticks(0), 1);
    assert_eq!(swim.window_ticks(2), 0);
    assert_eq!(out.len(), 8 + 8);
    assert_eq!(out[9], Effect::PlotNum { num: 1, col: 72, row: 1, color: cyan() });
    tick(&mut swim, |_, _, _| TickStatus::Continuing);
    assert_eq!(swim.window_ticks(0), 2);
}

#[test]
fn a_running_first_window_steps_twice_a_tick() {
    let (mut swim, _) = started();
    press(&mut swim, DecodedKey::Unicode('r'));
    let mut steps = Vec::new();
    let out = tick(&mut swim, |_, window, _| {
        steps.push(window);
        TickStatus::Continuing
    });
    assert_eq!(steps, vec![0, 0]);
    assert_eq!(swim.window_ticks(0), 1);
    assert_eq!(out.len(), 8);
    assert_eq!(out[0], Effect::PlotStr { text: "F1".to_string(), col: 72, row: 0, color: cyan() });
    assert_eq!(out[1], Effect::PlotNum { num: 1, col: 72, row: 1, color: cyan() });
    assert_eq!(out[6], Effect::PlotStr { text: "F4".to_string(), col: 72, row: 6, color: cyan() });
    assert_eq!(out[7], Effect::PlotNum { num: 0, col: 72, row: 7, color: cyan() });
}

#[test]
fn later_ticks_redraw_the_file_list() {
    let (mut swim, _) = started();
    let out = tick(&mut swim, no_program);
    assert_eq!(out.len(), 8 + 8);
    assert!(matches!(out[0], Effect::PlotStr { col: 1, row: 2, .. }));
}

#[test]
fn other_characters_are_ignored_in_the_file_list() {
    let (mut swim, _) = started();
    for c in ['a', '\n', '\u{08}', '\u{7f}', '\t'] {
        let out = press(&mut swim, DecodedKey::Unicode(c));
        assert!(out.is_empty());
    }
    for k in [KeyCode::Backspace, KeyCode::Delete, KeyCode::F5, KeyCode::Other] {
        let out = press(&mut swim, DecodedKey::RawKey(k));
        assert!(out.is_empty());
    }
    assert_eq!(swim.window(0).status(), CurrentSwim::DisplayingFiles);
}
