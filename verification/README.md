# bridge_mcp

Tools by which an MCP client manages remote hosts: AWX, `crictl`, `helm`, `k3s`, `kubectl`,
`esxcli` and environment drift. A tool turns a request into one shell command on a configured
host and reads the command's output.

`src/` is a Verus library. Its contracts say for every request which command it becomes, or why it
is refused.

- `shell`: quoting, command lines, and a reader of POSIX shell quoting against which commands are
  proved to mean what they are built from.
- `builders`: the commands, and the rules for the values that may stand in them.
- `tool`, `awx`: how a request is served, for tools that run a command and for tools that call the
  AWX API.
- `tools`: the tools, one module each.
- `table`, `result`, `secret`, `json`, `string_map`, `text`, `config`, `error`: what these work on.
- `laws`: what holds of several of them together.

`app/` parses JSON requests, runs the commands and answers. `tests/` runs the library.
