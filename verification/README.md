# minui

A small terminal UI toolkit whose widget logic is verified with Verus.

- `src/` is the library. Widgets draw onto a `Canvas`, a buffered surface
  that records every write (clipped through a stack of `WindowView`s) as a
  `DrawOp`. Each widget's contract states the exact writes it makes, or,
  where children of unknown type are drawn, that their writes stay inside
  the cells laid out for them. Editing state (`TextInputState`), scrolling
  (`ScrollState`, `Panel`, `Viewport`, `ScrollBox`), layout (`Container`),
  tables, status bars, text wrapping and the integer side of scrollbars and
  sliders are all proved against their specifications.
- `app/` is the terminal backend: `TerminalWindow` replays a canvas with
  crossterm and turns crossterm events into `minui::Event`s. It also holds
  what works in floating point: slider values, scrollbars driven by them,
  wheel acceleration and timed auto-scrolling, and scroll ratios.
- `tests/` exercises the library on concrete values.
