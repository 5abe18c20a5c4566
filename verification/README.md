# teamlens-agent

The agent that runs on a user's machine for TeamLens: it reports what is in
front and how active the user is, takes screenshots when they are wanted, keeps
reports that cannot be delivered, and shows a tray menu.

- `src/` is the library, verified with Verus. It decides what to run, what to
  send and what to show, and reads what comes back. It does no I/O.
- `app/` runs the programs, reads and writes the files and shows the tray icon,
  as the library says.
- `tests/` runs the library.

| module | holds |
| --- | --- |
| `text`, `number` | text and decimal numbers |
| `program` | commands, and the text that programs write |
| `platform` | what is asked of the operating system |
| `screenshot`, `base64` | capturing, scaling and encoding a screenshot |
| `json`, `config` | the answers of the service |
| `request` | the requests to the service |
| `buffer`, `delivery` | reports that wait, and the delivery of a report |
| `tracking`, `menu` | the tracking state, and the tray menu |
| `activity`, `agent` | the user's activity, and what a tick does |
