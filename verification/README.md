# base_search

Local search and analytics over imported spreadsheet tables, with its core
written in Verus and proved against its contracts.

## Layout

- `src/` — the verified library.
  - `text`, `number`: whitespace, trimming, joining, case mapping and decimal
    numbers over character sequences.
  - `schema`, `header_map`, `table`: the known record columns, recognition of
    source layouts from a header row, and the inferred shape of generic tables.
  - `content_hash`: whole-file content hashes, fed in pieces, for skipping
    files already imported.
  - `cells`, `reader`: cell normalisation, row hashing for duplicate detection,
    the row-by-row reader that finds a customs header row or falls back to a
    generic table, and the decisions that start and end a file import.
  - `search`, `db_types`, `advanced`, `duck_filter`: the query model, advanced
    rule trees, filter chips and the SQL filter text built from a search.
  - `stored_queries`, `history`: the stored-search text format and the recent
    and saved search lists.
  - `session`, `selection`: paging, matching worker replies to the current
    search, analytics requests, guided questions and row selection.
  - `guided`, `columns`, `labels`, `format`, `export`, `cli`: guided questions,
    column presets, interface labels, small formatters, export rules and the
    decisions of the export loop, and the command-line argument parsing.
  - `web_args`: the options of the local browser interface.
- `tests/` — tests run against the compiled library.
- `app/` — the command-line program: file reading (the bytes go to the
  library's content hasher), CSV and XLSX writing, and JSON for saved searches.
