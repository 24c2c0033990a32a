# openai_responses

The logic of an OpenAI-compatible `POST /v1/responses` endpoint: what the input
of a request says, what an agent is asked to do for it, and what the client
receives, as a stream of events or as one response. The library is written in
Verus; its contracts are stated over mathematical values.

- `src/json.rs`, `src/text.rs`, `src/options.rs`: JSON values, texts and optional
  settings
- `src/input.rs`: the messages of an input
- `src/request.rs`: what is asked of an agent
- `src/messages.rs`, `src/stream.rs`: what an agent sends, and what becomes of it
- `src/response.rs`, `src/clock.rs`, `src/ids.rs`: the response object, its
  timestamp and its identifiers
- `src/laws.rs`: what holds of all of these together
- `app/`: the HTTP route, on actix-web
