# clewdr

The core of a gateway between clients that speak the messages API and the
services that answer them, written in Verus.

- `src/` is the library. It decides; it does no input or output. Each step says
  what is to be done and takes what came of it. Its contracts are proved.
  - `providers`: what is done for a request.
  - `reply`, `relay`, `event`: how the reply of the web service becomes one for
    the client, streamed or whole.
  - `tool_call`, `tool_result`: tool calls that wait for their results, and the
    results.
  - `count`, `family`: token counts, and the families of models that usage is
    kept apart by.
  - `message`, `session`, `context`: requests, replies and sessions.
  - `json`: the calls into `serde_json`, with what each is taken to do.
  - `text`: comparing and searching text.
  - `laws`: what holds across the modules.
- `tests/` runs the library.
- `app/` is ordinary Rust around it: streams, HTTP replies, the clock, locks and
  the JSON forms of requests and replies.

Not proved, but stated where they are called: `serde_json` in `json`, and
`http::HeaderValue::from_str` and `url::Url::join` in `count`.
