# h1_dispatcher

The dispatcher of an HTTP/1 connection: it reads requests, hands them to a service, feeds
the service the request body, and sends the responses, one after the other.

All of its decisions are made in `src/`, by a state machine that is told what happened and
answers what it wants to happen next. Verus proves them against the contracts.

- `buffer`: the byte buffers, on top of the `bytes` crate.
- `reader`, `writer`, `service`: reading, sending a response, waiting for a service.
- `model`: phases, events and actions, and how one leads to the next.
- `dispatcher`: the dispatcher itself, and `h1_dispatch`, which takes it a step further.
- `laws`: what holds of a dispatcher whatever it is told.

`app/` does the I/O: it performs each action on a transport, a codec and the handlers, and
reports what came of it.
