# weixin_agent

Protocol SDK for the Weixin iLink Bot API, with its logic verified by Verus.

- `src/` — the verified library: protocol types and constants, configuration
  builder, error messages, AES-128-ECB with PKCS7 and key parsing, CDN URLs,
  upload planning and retry rules, MIME mapping, message construction, QR-login
  requests and status interpretation, the long-poll loop's decisions, the
  session guard, the typing-ticket cache rules, log redaction and ID
  generation. Calls into `aes`/`ecb`/`cipher`, `base64`, `md-5`, `rand`, `url`
  and `urlencoding` stand behind small trusted wrappers whose contracts are
  stated next to them.
- `app/` — the runtime around it: HTTP transport (`reqwest`), JSON (`serde`),
  file reads, the async long-poll loop (`tokio`), the shared cache (`dashmap`).
- `tests/` — tests of the library.
