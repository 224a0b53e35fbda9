# tmmpr

A terminal mind-map editor: notes placed on an unbounded canvas, joined by
connection lines routed around them, edited with vim-like keys.

## Layout

- `src/` is the library, verified with Verus: the map model (notes,
  connections and their index, viewport, persistence state), the routing
  of connection lines and the clipping of notes to the screen, the text
  editing and vim motions of a note, the start and settings screens, the
  keyboard handling of every screen, and the decisions of what to draw.
  Every public function states what it returns and how it changes its
  arguments; laws that relate several functions are public proof functions
  (`lemma_*`).
- `tests/` holds the tests of the library.
- `app/` is the program around it: the terminal loop, the drawing with
  ratatui, the real file system, the JSON files and the backups.

## Behaviour worth knowing

- The text cursor of a note is a character index: in "世界" the end of the
  text is 2. Every position is thus a character boundary.
- `w` from whitespace moves past the whitespace to the start of the next
  word, as in vim; from inside a word it skips the rest of the word first.
- Connection lines are routed for any connection point up to
  `isize::MAX - 2` on both axes (`can_route`).
- A map file is opened only when it is consistent: its drawing order lists
  every note once and nothing else, every note ID is below the next one to
  be handed out, and no connection runs from a note to itself
  (`loaded_states`).
- The settings keep at most one backup date per map file
  (`Settings::record_backup_date`).
- Disk access goes through the `FileSystem` trait, whose methods take
  `&self`; see its documentation for how its answers are read.
