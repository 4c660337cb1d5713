# acorn_zomes

The decisions of the Acorn and iamp2p Holochain zomes, proved with Verus.

- `src/` is the verified library. Each zome call is split at its calls into the
  conductor: the library takes what those calls returned, as plain values, and
  says what to return, what to link and what to signal.
  - `hashes`: hashes and agent keys as bytes; an agent key as an entry hash.
  - `dna_help`: choosing the latest version of an entry, keeping the entries that
    were found, wire forms of entries.
  - `projects`: profiles, statuses, peers, transactions and project metadata.
  - `goal_comment`: create, fetch, update and archive of goal comments.
  - `acorn`: anchors, entry definitions and the validation rules for profiles.
- `app/` holds the zomes themselves on hdk 0.0.100: the conductor calls, the
  serde forms of the library's types with `From` both ways, and the glue.
- `tests/` runs the library on concrete values.
