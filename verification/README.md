# nexa_core

Core of the Nexa multi-agent control platform, verified with Verus.

`src/` is the library. Every function in it carries a `requires`/`ensures`
contract that Verus proves: the priority message buffer, the agent and task
registry, cluster elections and message placement, memory accounting, the
server lifecycles and their state files, configuration defaults and validation,
the context history used for code generation, the dashboard's state machine,
workflow scheduling, log rotation, and the texts exchanged with LLM servers.
Laws that relate several operations are public proof functions named `law_*`.
The few calls into other crates (`uuid`, `sha2`, `rand`, `num_cpus`,
`serde_json`, and three std string functions) sit behind small trusted wrappers whose contracts say
what those crates document.

`app/` is the `nexa` command: argument parsing with clap, the files under
`~/.nexa`, the YAML configuration file, the HTTP requests to LM Studio, Ollama
and OpenAI, a small status server, the message server's sockets and WebSocket
frames, log-file removal, and the floating-point scores, rates and thresholds.
It reads, writes and sends, converts between files or wire formats and the
library's types, and leaves every other decision to the library.

`tests/` runs the library on concrete inputs.
