# fishword

A vocabulary flashcard trainer with deck-scoped FSRS scheduling, as a
verified library and a thin command-line program around it.

- `src/` — the library, verified with Verus:
  - `card`, `deck`, `error`: the data model;
  - `clock`: instants and their texts (chrono behind small trusted wrappers);
  - `importer`: the `fishword.deck.v1` card format, duplicate strategies,
    merging, and the import tally;
  - `selector`: which card to show next within one deck;
  - `scheduler`: review bookkeeping around the FSRS proposals;
  - `storage`: progress arithmetic on counted rows;
  - `protocol`: the JSON protocol responses and their human renderings;
  - `cli`: every command as a step function from the replies received so far
    to the next operation or the final output, with laws over all runs.
- `app/` — the program: clap parsing, SQLite storage, downloads, file
  reading, the floating-point parts of FSRS, and JSON printing. It asks the
  library's `cli::run::run` for the next step and performs it.
- `tests/` — tests of the library.
