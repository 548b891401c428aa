# ferio-linux-helper

A terminal helper for Linux desktops: system overview, package maintenance,
systemd services, network diagnostics, desktop repairs, the journal and a few
system optimisations. Every system command is shown in a confirmation dialog
before it runs, and a dry-run mode (`--dry-run` or `MOCK_EXEC=1`) only logs
what would run.

Every operation carries a risk note (level and what to expect). `r`/`R`
refreshes the active screen, `Ctrl+C` quits whatever is shown or running,
and a service name typed for the journal reaches `journalctl -u` quoted
as one shell argument, so that typed text can never add a command.

## Layout

- `src/` — the library, verified with Verus:
  - `text.rs`: text handling (lines, words, trimming, search, decimal
    numbers) specified over `Seq<char>`;
  - `keys.rs`: the keys that the screens react to;
  - `commands.rs`: commands awaiting confirmation, the dry-run and refusal
    rules, and what a process outcome is answered with;
  - `privilege.rs`: the root check and the escalation decision;
  - `shell.rs`: quoting typed text as one shell word, with the part of the
    shell's reading of a word that the quoting relies on;
  - `modules/`: the seven screens, each a state machine over key presses
    with the parsing of the data it shows;
  - `tui/`: the selectable list and the application state (tabs,
    confirmation dialog, running command, result dialog).
- `app/` — the program around it: argument parsing, the terminal, drawing,
  and everything that runs processes or reads the system. The screens ask
  for data through flags (`wants_data`, `pending_query`, ...), which the
  program serves and hands back as plain values.
- `tests/` — tests of the library.
