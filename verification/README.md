# audd

Client library for the AudD music recognition API, written in Verus.

- `src/` is the verified core: the JSON model of server responses, decoding
  of responses into bodies or typed errors (including the code-51
  deprecation pass-through), the error-code taxonomy, the retry rules and the
  attempt loop state, callback and longpoll decisions, request fields,
  streaming/preview link helpers and the longpoll category derivation.
  MD5, URL parsing, and JSON reading and writing are called through small
  trusted wrappers around the `md5`, `url` and `serde_json` crates.
- `app/` is the async shell around it: the `reqwest` transport, the tokio
  retry/longpoll loops, serde copies of the models, and the public `AudD`
  client. The request and longpoll decisions it acts on (what to send, when
  to retry, what each response means, when a subscription ends) are made by
  functions of `src/`. What stays in `app/` is I/O, serde typing of payloads,
  and the floating-point parts: retry backoff and enterprise offset anchoring.
- `tests/` exercises the core on concrete values.
