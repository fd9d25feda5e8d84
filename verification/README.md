# playwright CDP session, verified

The logic of a Playwright CDP session, proved with Verus.

- `src/json.rs`: the serde_json values the driver protocol carries, a model of
  what they hold, and the serde_json calls the library makes, with their contracts.
- `src/event.rs`: the events a session emits and their conversion to what a
  subscriber receives.
- `src/session.rs`: the driver calls a session makes (`send`, `detach`), what it
  keeps of a reply, and which event it emits for a driver message.
- `app/`: the asynchronous side (driver channel, event broadcast, user handle).
- `tests/`: tests on concrete values.
