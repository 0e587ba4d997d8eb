# crossbridge

Agents that work in different repositories of one machine ask each other questions
and exchange answers through the repositories' issue databases.

- `src/` is the library, verified with Verus: the wire format, the supervisor's
  registry, the life of a server, the handling of submissions and answers, the
  client's commands, and the polling bridge. It does no input or output. Its tasks
  say what to do next and are resumed with what came of it.
- `app/` is one binary that carries the tasks out with `crosslink` databases, Unix
  sockets and files. The name it is started under picks the program:
  `crossbridge-supervisor`, `crossbridge-server`, `crossbridge-client`, or, for any
  other name, the polling bridge.
- `tests/` runs the library, on real databases where one is needed.

What a single step does stands in the contracts of the functions. What a whole
exchange leaves behind stands in the modules whose names end in `_laws`: that a
submission made twice makes one issue, that a question goes there and its answer
comes back, that every member of a group knows its peers, that what was written is
read back.
