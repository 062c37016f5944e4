# vreader

A terminal feed reader with parent, kid and operator roles, an AI assistant
(Smart Pick, Daily Digest) and a link to the vchat.email agent network.

The library under `src/` is written in Verus: public functions state in
their `requires`/`ensures` what they do, and Verus proves the code against
those contracts. The feed store (`LibraryStore`), the background updater
(`UpdateProgress`) and the screens (`AppScreen`) are traits: the library's
contracts are stated over the model each trait declares, and what a store
or updater answers is its own.

- `library`, `entries`, `matching`: the feed library over a pluggable store,
  entries newest first, fuzzy feed lookup.
- `feedtree`: the navigation tree of the main screen and its selection.
- `screens`, `reader`, `llmdialog`, `help`, `keys`: the screens' key
  bindings, texts and state changes.
- `app`: the stack of screens and dialogs, and the status line's decisions.
- `config`, `cli`, `dirs`, `paths`: roles, configuration and directories.
- `llm`, `vchat`: the requests sent to the LLM API and the agent network,
  and how their answers are read.
- `text`: string helpers with exact specifications.

Calls into other crates and into `std` that Verus has no specification for
go through small trusted wrappers, each with a doc comment saying what it
assumes.

`app/` is the executable around the library: argument parsing, the
configuration file, the LLM and agent-network calls, and styling helpers.
This build has no on-disk store and no terminal interface: those commands
end with an error that says so. `tests/` runs the library on concrete
values, with in-memory stores.
