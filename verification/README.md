# oc-quota

A terminal front-end that routes OpenCode traffic through a rotating set of
proxy pools (Tor and WARP instances) and hides rate limits from the client:
a completion that is rate limited or fails on the server side is retried
through the next pool.

- `src/` is the verified library: the shared state and its bounded log
  (`state`), failover between pools (`failover`), the interceptor's retry,
  forwarding and header rules (`interceptor`), one completion request from
  first attempt to delivery (`completion`), Tor and WARP bookkeeping
  (`tor`, `warp`), the 9Router launch and registration plans (`router`), the
  dashboard's rules (`ui`) and the text helpers they share (`text`).
- `app/` runs the program: the HTTP server and client, processes, files,
  the terminal, and the serialisable forms of the records.
- `tests/` exercises the library on concrete values.
