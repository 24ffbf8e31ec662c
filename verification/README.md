# codex_subagents

Provider-aware collaboration between agents, verified with Verus.

An agent that uses the OpenAI model provider talks to its OpenAI children over an
encrypted transport. Agents of other providers get plaintext tools, and an OpenAI
agent reaches them through a separate `external_agents` surface, only for providers
that the user's own settings allow. The library decides:

- which message route a tool surface uses, who may call its tools, and what its
  `send_message` / `followup_task` schemas look like (`multi_agent_message`,
  `surface`, `followup_task`);
- whether a message may be sent, in which form it travels, and the plaintext
  envelope and its size limit (`multi_agent_message`, `message_tool`, `protocol`);
- which provider a subagent may use, from the parent's baseline and the
  user-owned allowlist (`subagent_model_provider`, `config`,
  `model_provider_info`);
- which provider a known agent uses, the baseline a parent hands down, and the
  checks on resumed and history-forked subagents (`agent_control`).

`src/` is the verified library; `app/` holds the asynchronous driver of the
messaging tools, JSON argument parsing and the conversion of parsed settings
files; `tests/` runs the library on concrete values.
