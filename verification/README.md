# corn-dbio-kit

Exports tables and views of SQL Server, MySQL, PostgreSQL, Oracle or SQLite
databases page by page (SQL INSERT scripts, CSV, tab-separated, JSON, XML,
Markdown or a SQLite file), optionally archived, and imports a SQLite export
into another database. It runs from the command line or as an interactive
terminal screen, and keeps its settings in a `.env` file.

## Layout

- `src/` — the library, verified with Verus: reading the configuration
  (arguments, environment, form), the `.env` rewriting, the SQL text of every
  query and statement, the exported file texts, paging and batching, the
  progress and run bookkeeping, the value formatting of each driver's cells,
  and what each key does on the interactive screen (the screen's next state
  and the work the key asks for). Laws relating several functions are public
  proof functions (`law_*`).
- `app/` — the program around it: `main`, file and process I/O, the database
  drivers, and the terminal loop (drawing, mouse clicks, the timing of
  type-ahead search), each calling the library for what to do.
- `tests/` — tests of the library on concrete values.
