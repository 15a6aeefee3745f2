# lawfirm_agents

A legal-research assistant: a question is matched to one of the legal documents
indexed in OpenSearch, searched by text and by vector within that document,
the hits are judged and summarized by a language model, and the answer is
written from the useful summaries, or the question is politely declined.

## Layout

- `src/` — the library, verified with Verus:
  - `flow.rs` — the research flow as a state machine (`Flow::step`), with its
    laws (progress, topic selection by number, when a question is declined);
  - `agents/` — the five language-model agents and the prompts they write, the
    reading of the topic selector's and the summarizer's replies;
  - `connectors/` — the chat model's settings, request body, authorization
    header and replies; the OpenSearch client; the embedding reply;
  - `tools/searcher.rs` — the search conditions, the results of a search reply,
    and the sorted, numbered list of available topics;
  - `json.rs` — JSON values as read through `serde_json`;
  - `text.rs` — decimal numbers, trimming, joining.
- `tests/` — tests of the library.
- `app/` — the command-line program: it reads the environment, performs the
  HTTP requests to the model, the embedding service and OpenSearch, and runs
  the flow.
