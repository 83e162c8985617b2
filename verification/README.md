# gitlab_mcp

A GitLab tool server for the Model Context Protocol, with its decisions
verified by Verus.

`src/` is the verified library:

- `text`: characters, whitespace, ASCII case folding, decimal rendering.
- `segment`: percent-encoding of one URL path segment, with its laws (an
  encoded segment never holds `/`, and decoding it gives the value back).
- `config`: the API base URL, the on/off flags, the response size limit, and
  the authentication header chosen by the token type.
- `request`: the requests sent to GitLab, their JSON bodies, and the two ways
  a tool call is turned down.
- `query`: pagination and optional query parameters.
- `draft`: merge request titles and draft markers, with their laws.
- `tools`: the request each tool sends, built from its parameters.
- `json`: the JSON documents GitLab answers with, read from the body's bytes
  (the document they hold, or else their text) and written back as text.
- `review`: the merge request review: its requests, the rule that a failed
  merge request fetch ends it, how the answers are put together into the
  review document, and the summary of what came back.
- `response`: size limits and status checks on GitLab's answers, and what a
  tool shows for them.

`app/` holds the rest: reading the environment, the HTTP client, the MCP
server with its tool parameter types, and the request bodies as
`serde_json` values.
