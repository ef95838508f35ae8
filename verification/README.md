# automation_core

The logic of a WhatsApp automation worker, verified with Verus.

The worker subscribes to a Redis pub/sub channel on which a WhatsApp gateway
publishes incoming messages as JSON, turns each payload into a message event,
and answers through the GoWa HTTP API (`ping` gets `pong`, `test` gets a reply
that is then edited, an outgoing `done` is confirmed with `yes`).

- `src/` is the verified library:
  - `json`: the JSON model (values, objects with unique keys, their abstract view as maps)
    and the reading of JSON text through `serde_json`;
  - `text`: whitespace, trimming, decimal rendering, URL encoding, header checks;
  - `message`: reading an incoming message out of its payload;
  - `settings`: settings from an environment snapshot, channel and device-id resolution;
  - `gowa_api`: the requests to the GoWa API and the reading of its replies;
  - `client`: message events, send/reply/update requests, the worker's stop state;
  - `pubsub`: the subscriber's reconnect back-off and payload normalisation;
  - `bot`: what the bot does about a message.
- `app/` is the program around it: environment, Redis, HTTP, async handlers,
  the `serde_json` form of request bodies, and the floating-point timing.
- `tests/` exercises the library on concrete values.
