# nats_admin

An admin adapter for NATS and JetStream. Topics are JetStream streams, subscriptions are JetStream
consumers, and a message is sent by publishing it on a NATS subject.

`src/` is the adapter without its sockets, verified with Verus: each function takes what was
configured or received and says what to send or report.

- `text`, `json`, `codec`: text, JSON documents, and reading and writing them with `serde_json`
- `config`, `endpoint`, `admin`: the configuration, the servers that it names, and the adapter
- `subject`, `wire`, `connection`: names and subjects, the commands that publish messages, and the
  exchange with a server
- `jetstream`, `replies`, `send`: requests to the JetStream API, what its replies say, and sending a
  message
- `laws`: what holds of the library as a whole

`app/` runs the adapter on Tokio: it opens connections, keeps time limits, and moves bytes between a
socket and the library.
