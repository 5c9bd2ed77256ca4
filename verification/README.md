# buzz_playbook

Reusable checklist templates and independent, channel-scoped playbook instances, with the
rules by which commands are accepted and projections are read back. The library under `src/`
is verified with Verus; `app/` is ordinary Rust around it.

- `document`, `validate`, `error`: templates, sections and items, and what makes a document
  acceptable.
- `operation`, `instance`, `search`, `instance_laws`: structural edits of an instance, and what
  holds of every edit.
- `state`, `snapshot`: item states folded from signed actions, and histories in order of time.
- `store`: the decisions of the relay's store. A command is a chain of types; each holds what was
  checked, and asks the store for what the next check needs. `store::command` decides on whole
  commands at once, and `store::laws` states what holds of the decisions together. `store::tables`
  models what is stored and how each command changes it; `store::tables_laws` and
  `store::reading_laws` state what holds through any sequence of commands.
- `cli`: the decisions of the command line client: plans, drafts of events and failures.
- `text`, `text_laws`, `time`: identifiers, numbers and moments.

Identifiers are 128-bit numbers, and moments are seconds and nanoseconds since the Unix epoch.
`app/` turns them into UUIDs and chrono values, reads and writes Postgres, encodes JSON and talks
to the relay.
