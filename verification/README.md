# agent_hub

Remote approval of coding-agent tool calls, written in Verus.

A coding agent calls a hook before it runs a tool. The hook routes the call by
rules, or asks a server about it. The server keeps the approvals, shows them to
an operator and takes the operator's decisions; for a shell command a decision
may come with a temporary grant, which lets the same command of the same session
through until it ends. A gateway does the same for providers with other formats,
and puts the questions of plan mode to the operator.

## Layout

- `src/` holds the decisions, each with a contract:
  - `text`, `paths`, `json`, `ids`, `clock`: the values that everything is made of.
  - `protocol`: approvals, questions, sessions and tools as the parties name them.
  - `hook`: rules and their patterns, what is written for the caller, asking the
    server and waiting for its answer, delegates.
  - `gateway`: what each provider sends and is told, and the wait for an answer to
    a question.
  - `server`: the registry of approvals (`model` says what each operation does to
    it, `approvals` does it, `laws` says what holds across operations), the
    answers to requests, routes, pages, session status and stored state.
- `tests/` runs the library.
- `app/` is the program: sockets, files, processes, signals, and the forms in which
  the library's values are sent and stored.

## What is taken on trust

The library calls `serde_json`, `uuid`, `chrono`, `tokio`, `globset` and `regex`,
and a few functions of `std` that vstd does not specify. Each such call stands in
a small function, or has a declared specification, whose comment says what is
claimed of it. A name such as `glob_expression` stands for what an outside call
returns where that depends on its arguments alone.

Those who watch an approval find its status in a `tokio` channel. Which channel that
is and what lies in it is part of what the contracts say; when the task of a watcher
is woken is not.
