# backlog_organizer

The rules and decisions of a Steam backlog organizer, verified with Verus.

- `src/` — the verified library: categories and their stored names
  (`category`), library summaries (`summary`), the collections written back
  to Steam (`collections`), cache decisions (`cache`), the recommendation
  and second-opinion flows as step functions (`recommend`, `ambiguity`),
  installing the local assistant (`setup`), and string helpers (`text`,
  `json`).
- `tests/` — tests of the library on concrete values.
- `app/` — the desktop side: files on disk, clocks, JSON of library types,
  and the outside services (Steam, the classifier, the local assistant),
  which drive the library's step functions.
