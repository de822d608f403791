# nhl_tui

The screen logic of a terminal NHL stats viewer, written in Verus: documents
(element trees with focusable links and embedded tables), scrolling and focus
navigation, the standings, scores, settings and demo tabs, the team and
player panels, the boxscore's team columns and sections, and the status and
breadcrumb bars. Public functions state their results in their contracts
(where a result depends on the machine, such as a start time in the local
time zone, the contract says what holds whatever it is), and the laws that
tie functions together
(scrolling back and forth, Tab and Shift-Tab, cycling views, moving through
days, how the standings split into divisions and wildcard races) are proved
as proof functions.

Layout:

- `src/` — the verified library. Layouts are computed as plain values (lines
  of positioned text, section areas, focus positions) so that drawing them is
  a matter of copying them onto the terminal.
- `tests/` — tests of the library on concrete values.
- `app/` — the unverified edge: conversions from the `nhl_api` types, key
  decoding from `crossterm`, and drawing the library's layouts with `ratatui`.
