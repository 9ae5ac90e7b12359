# bare_metal_swim

A four-window text console for a small x86 kernel, written as a verified
state machine in Verus.

Each window has a character buffer, a cursor, a file system that starts with
four example programs, and a program that can run in it. F1 to F4 choose the
window, the arrow keys choose a file, `r` runs it, F6 returns to the file list,
and a program waiting for input gets the line typed in its window. On every
timer tick the program of the chosen window takes a step, and the scheduler
gives one more step to a running program and counts it.

The library (`src/`) decides and the kernel acts: every operation appends the
screen cells to draw and the file-system requests to make to a list of
`Effect` values, and a timer tick is driven event by event (`Swim::tick`
asks for each program step and takes its report as the next event).

- `src/screen.rs`: colors, effects, and which characters the screen can draw.
- `src/window_spec.rs`, `src/window.rs`: one window, as values and in code.
- `src/swim_spec.rs`, `src/swim.rs`: the console of four windows.
- `src/keys.rs`: key presses.
- `src/arith.rs`: arithmetic on a ring of positions.
- `src/laws.rs`: properties proved of the whole (round trips, the scheduler,
  drawing that stays on the 80 by 25 screen, what a key press may change).
- `app/lib.rs`: the kernel side, drawing on the VGA buffer and holding each
  window's RAM-disk file system and interpreter.
