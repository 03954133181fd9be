# cheap_api_core

A caching layer for HTTP API calls, verified with Verus.

- `src/` is the verified library: cache keys (`hasher`), header maps and the
  merging of repeated response headers (`headers`), the preparation of an
  upstream request (`upstream`), token-usage reports (`usage`), the stored
  document shape (`mongo_adapter`), and the interception flow as a state
  machine (`interceptor`): each step takes the state and the outcome of the
  last outside operation and returns the next state and the next operation.
- `app/` drives that machine against MongoDB, the HTTP client and the clock,
  prints token usage, and holds the Node.js and Python bindings.
- `tests/` runs the library on concrete values.
