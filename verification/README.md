# edk2_parser

A verified reader of EDK2 build description files (INF, and the skeleton of
DSC). The text of a file is split into lines, headers that name several
sections are written out once per section, `DEFINE` macros are recorded and
their `$(NAME)` references replaced, the result is read as an INI document,
and the lines of every section are read into table rows. Single section
entries can also be read, rendered, encoded as MessagePack records and
decoded from them.

Layout:

- `src/` is the library, written in Verus. Its functions carry contracts
  stated over `Seq<char>` models of their strings; the value SQLite computes
  for a condition is the one result left open. `text.rs` holds the models of
  trimming, splitting and joining; `parser.rs` states what reading a whole
  file gives, `rows.rs` and `section/` what each section reader gives,
  `section.rs` what each entry is, `codec.rs` the MessagePack layout, and
  `render.rs` proves that rendered entries read back as themselves.
- `app/` holds what stays outside verification: reading files from disk,
  storing rows in SQLite, error types with `Display`, and serde copies of the
  entries, through which entries are decoded in any form serde reads.
- `tests/` exercises the library on concrete inputs.
