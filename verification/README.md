# sunderiv

A bot for Rise/Fall contracts of the Deriv API. It trades on a demo account
until four trades in a row have the same outcome, and then bets on the real
account: on a rise after four losses, on a fall after four wins. A bet starts
with a stake of 0.35; when that is lost, a second trade with a stake of 0.79
follows.

- `src/` is the verified library. It decides; it does no I/O and no
  floating-point arithmetic.
  - `bot`: the cycle of searches and bets, as a state machine.
  - `demo`: the search for four equal outcomes in a row.
  - `trade`: one trade, as a state machine.
  - `listen`: what a message means while something is awaited.
  - `request`, `response`: what goes to the API and what comes back.
  - `json`: the model of JSON values, and the calls into `serde_json`.
  - `price`: amounts as bit patterns, and their order.
  - `client`, `failure`, `wait`: configuration, failures, waiting.
- `tests/` runs the library.
- `app/` is the program around it: sockets, clock, environment, log.

The settings are read from the environment or from `.env`: `DEMO_APP_ID`,
`REAL_APP_ID`, `DEMO_DERIV_API`, `REAL_DERIV_API`, and `CURRENCY` (US dollars
unless set).
