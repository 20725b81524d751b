# xiaozhi

The verified core of the xiaozhi management console and its language-model
providers, written in Verus. Every function under `src/` carries a
`requires`/`ensures` contract that Verus proves; calls into `serde_json`,
`base64`, `sha2`, `hex`, `bcrypt`, `jsonwebtoken`, `uuid`, `rand`, `chrono`
and `urlencoding` go through a small number of trusted wrappers whose
contracts restate what those crates document.

## Layout

- `src/text.rs`, `src/codec.rs`, `src/paths.rs`, `src/json_fields.rs`:
  string, encoding, path and JSON helpers shared by the rest.
- `src/llm/`: chat messages, the provider factory, the SSE reader, the
  OpenAI, Dify and Coze request builders and reply-stream readers, and the
  tool-call accumulator.
- `src/history.rs`: requests and replies of the chat-history service.
- `src/logging.rs`: logging options and paths.
- `src/manager/`: the console's rules — access decisions, passwords and
  tokens, captchas, API tokens and activation codes, devices and agents,
  provider configurations and their tests, MCP services, knowledge bases,
  voice cloning and its allowances, chat history and settings.
- `tests/`: executable tests of the library.
- `app/main.rs`: a command-line front end that reads files, calls the
  library and prints results.

Public proof functions named `law_*` state properties that span several
functions (for example what a captcha store does over a sequence of
answers, or how stream fragments assemble into tool calls).
