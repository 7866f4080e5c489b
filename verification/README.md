# xgreeter

A login frontend for greetd. The library in `src/` holds the logic and its
proofs; `app/` is the terminal program around it.

- `src/greetd.rs`: the greetd protocol messages and the demo stand-in for greetd.
- `src/app.rs`: the authentication reducer, `AppState::update`, specified by
  the transition function `step`.
- `src/logs.rs`: the bounded ring of log lines behind the footer ticker.
- `src/driver.rs`: the event loop's decisions (keys, Control-C, a closed input,
  carrying out effects, choosing the real socket or the stand-in).
- `src/laws.rs`: properties of the reducer and the ring proved for all inputs.
- `src/text.rs`: the control and whitespace character classes, and the string
  operations taken from std.
- `app/`: socket and process I/O, the terminal loop and the drawing.
