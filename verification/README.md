# bim_core

Core of a network speed test (client and server), written in Verus.

`src/` is the verified library:

- `counter` — the load counter of a load phase, the stream-health status and
  the throughput window;
- `ping` — latency statistics of the three clients (sorting, trimming, minima,
  jitter totals);
- `target` — the parts of a test URL (parsed by the `url` crate) and what is
  derived from them;
- `requests` — the exact bytes of every request the clients send;
- `workers` — the decisions of the load workers as step functions, connection
  retries, the sampling window and the test sequence;
- `address` — choosing the address to test among the resolved ones;
- `server` — routing of server requests and the responses;
- `select` — client and server selection by name, command-line decisions;
- `text` — building ASCII byte messages.

`app/` holds the programs around it: sockets, TLS (`rustls`), the asynchronous
client (`tokio`), threads, timing, floating-point results and the command line
(`getopts`). Run `client` (the default) or `server` as the first argument.
