# mnemo

An AI companion agent that answers over WeChat (iLink bot protocol) and QQ, asking an
OpenAI-compatible model.

- `src/` is the library, verified with Verus: the protocol messages and their decisions (what a
  WeChat message says, what a poll passes on, how a login proceeds, which QQ events reach the
  agent and how replies go back), the agent's turn over its memory, the configuration and the
  setup answers, conversation ids and the text primitives they rest on.
- `app/` is the program around it: the command line, HTTP (reqwest), the QQ bot (botrs),
  PostgreSQL (sqlx), the configuration file, and the async loops that perform what the
  library decides.
- `tests/` runs the library on concrete values.
