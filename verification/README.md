# codecov_mcp

An MCP server that answers coverage questions about a repository from the
Codecov API: coverage of a commit, coverage of the files a pull request
changes, and which of those files most need tests.

- `src/` is the verified library: configuration, the request URLs and the
  reading of response statuses, the polling state machine, the filtering
  and ranking pipeline, and the assembly of every tool's answer.  Coverage
  percentages are a type parameter of the models, so the library carries
  them without computing with them.
- `app/` is the server around it: environment, HTTP requests, JSON,
  the floating-point scoring of files, and the MCP protocol.
- `tests/` exercises the library on concrete values.
