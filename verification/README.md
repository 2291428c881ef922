# coop

The verified core of Coop, a desktop nostr client for private messaging.
`src/` holds the decisions Coop takes apart from drawing its window and
talking to relays, proved with Verus: where its files go, how keys and
credentials are read and stored, the profiles it knows and the metadata it
builds from what the user typed, how relay lists, contacts, searches and
chat input are handled, which events are acted on, and the state machines
of the per-device encryption keys (NIP-4e).

- `src/` — the library, one module per concern (`paths`, `key_store`,
  `keys`, `login`, `relays`, `compose`, `search`, `chat`, `tracker`,
  `person`, `profile`, `device`, `encryption`, `encryption_ui`, `workspace`,
  `new_account`, `settings`, `screening`, ...).
  Calls into the nostr, url and serde_json crates stand behind small trusted
  wrappers whose contracts are documented where they are declared.
- `tests/` — tests of the library on concrete values.
- `app/` — a terminal front end: it finds Coop's directories, reads and
  writes the credentials file, and signs the stored user in, using the
  library for every decision.
