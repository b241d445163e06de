# rust_agent

The verified core of an agent that turns a chat request into a small React project.

- `src/` is the library, verified with Verus: configuration, model providers and
  clients, the JSON repair stages and structured answers, chat requests and the agent
  context, mock switches and the mock store, routing, the prompts of each stage, the
  nodes that need no model, the cross-origin policy, and the traditional flow as a
  state machine (`runner.rs`) whose laws (event order, one `Done`, delivered files)
  are proved there.
- `tests/` exercises the library on concrete values.
- `app/` is the HTTP server around it: environment, model calls, mock files, the
  event stream.
