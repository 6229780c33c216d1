# gemini_orchestration

Decision logic of a coding agent that delegates work to child agents and pursues goals over
many turns, verified with Verus.

- `src/` is the library. It decides: when a child is done, how long a parent waits and what it
  is told, what a goal is charged and when it is continued or completed, when an orchestrator
  is nudged or steered, and how web pages, search results and remote images are asked for and
  shown. Work that needs a session is split into stages: a stage says what is to be done next,
  and the event that comes of it leads to the next stage.
- `tests/` runs the library on concrete values.
- `app/` does what the stages ask for: HTTP, JSON, channels, timers and the calls into the
  host.

The library relies on `url`, `http`, `uuid` and `serde_json` behind small wrappers, each of
which says in its doc comment what is taken on trust.
