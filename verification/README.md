# glados

Verified core of a Portal network monitor.

- `src/stats.rs`: dashboard filters, the audit query they describe, and audit
  statistics over an hour, a day or a week.
- `src/time.rs`: period lengths from `chrono`.
- `src/distance.rs`: the XOR metric between 256-bit node ids and its logarithm,
  with its laws.
- `src/routing.rs`: parsing the routing table a Portal client reports (hex node
  ids through `ethereum-types`, ENRs through `discv5`).
- `src/jsonrpc.rs`: JSON-RPC requests, the client's request numbering and the
  reading of the client-version reply.
- `src/failures.rs`: rows for failed content transfers of an audit.
- `src/config.rs`: audit settings from the command line.

`app/` holds the web front end, the IPC socket I/O, the database tables and
the floating-point percentages.
