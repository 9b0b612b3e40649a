# cxtools

An MCP server exposing four tools: `shell_command`, `apply_patch`, `view_image` and
`subagent`.

- `src/` is the verified library (Verus). It decides what each tool asks of its
  process runner and what it reports back for every outcome:
  - `text`: decimal and `Debug` rendering of integers, UTF-8 lossy decoding.
  - `model`: tool parameters and outputs, and the tool-call result.
  - `shell`, `patch`, `image`, `subagent`: one module per tool.
  - `encoding`: standard padded base64 as a specification, with its decoding.
  - `server`: the server's self-description.
  - `laws`: properties proved across the tools' results.
- `app/` is the binary: it runs processes and patches, reads files, and speaks MCP
  through `rmcp`, converting to and from the library's types.
- `tests/` exercises the library on concrete values.
