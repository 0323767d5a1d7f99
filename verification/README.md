# kiro

A client library for the Kiro assistant service, verified with Verus.

- `src/` is the verified library: the AWS event-stream framing of streamed
  replies (`event_stream`), how decoded frames become chat events
  (`chat_stream`), requests and their builders (`chat`, `tools`, `models`),
  service errors (`error`), endpoints, tokens and their expiry (`token`),
  the device-authorization sign-in decisions (`device_flow`), and the
  editor provider's state, model choice and reporting (`provider`,
  `completion`). Calls into `hex`, `http`, `uuid`, `chrono`, `serde_json`
  and `tiktoken-rs` stand behind small trusted wrappers whose contracts are
  stated next to them.
- `tests/` runs the library on concrete inputs.
- `app/` is the unverified shell: serde forms of the library's types, the
  HTTP exchanges, the credential store and the Zed integration.
