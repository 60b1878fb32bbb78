# aioworldline

A client for the Worldline Baltic merchant portal, verified with Verus.

- `src/` — the verified library: calendar dates and their `dd.mm.yyyy` rendering
  (`date`), the portal's requests (`portal`), the login and report conversations as
  state machines (`flow`), CSRF extraction from pages (`csrf`), the configuration check
  (`conf`), decoding of the exported CSV report (`report`), errors and report options.
- `app/` — the program around it: environment loading, the HTTP client and timers that
  carry out the conversations' actions, logging, and the Python bindings.
- `tests/` — tests of the library on concrete values.
