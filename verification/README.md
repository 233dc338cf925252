# tortuga

Tortuga is a small language and a CGI web server. This crate holds its logic as a library
whose behaviour is stated in `requires`/`ensures` contracts and proved with Verus:

- `compiler`: scanning source text into tokens (`scanner`, `input`, `location`, `number`),
  parsing tokens into a syntax tree (`parser`), emitting WebAssembly modules in the binary
  format (`emitter`), transforming a process into a module (`transformer`) and validating a
  module (`validator`).
- `compile`: the tokens with attachments of the older front end.
- `grammar`: the syntax trees.
- `web_assembly`: the abstract syntax of WebAssembly modules.
- `context`, `client`, `uri`, `variable`, `strings`: the CGI request environment, the decisions
  of a client connection, and text helpers. `uri` (percent-decoding) and `variable` (the names
  of CGI meta-variables, such as `HTTP_ACCEPT` for the `Accept` header) are the crate's own
  definitions of what the request context calls for.
- `board`, `actor`: a slab of slots handed out again oldest first, and actor references.

`app/` holds what runs around the library: the client connection over tokio, spawning
scripts, coloured printing, and the error types of the program.

Not included:

- A message broker between actors. Its envelopes, its error type and the references it keys
  on are not defined anywhere in the project, so there is nothing to route.
- A pretty printer of syntax trees read by a PEG parser. Its grammar file is not available,
  and without it there is neither a grammar to state nor a tree to print.
- Paths are compared as text (see `relative_to` in `context::request`): a path is inside a
  base when the base, followed by `/` unless it ends in one, is a prefix of the path. Paths
  that spell one directory two ways (`a//b`, `a/./b`) are not treated as the same.
