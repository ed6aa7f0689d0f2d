# darkfi_inspect

A developer-oriented inspector for DarkFi nodes, as a verified library and a
thin command-line front end.

- `src/` is the library, with every function proved against its contract:
  - `diagnose`: check results, their summary, the overall verdict and the
    findings that point at the subsystem to investigate;
  - `inspect`: the checks run on a block (height, chain linkage, timestamp
    sanity, including DarkFi's timestamp rule over the genesis timestamp and
    the window median) and on a transaction (hash, call forest, proof and signature
    groups), the inspection reports and their printed lines;
  - `status`: the node status snapshot, its exit code and the peer listing;
  - `rpc`: the retry policy of RPC calls, the decoding decisions for pushed
    notifications and the subscription output;
  - `text`: decimal numbers, padding, lists and case-insensitive comparison,
    each against a spec of the characters produced.
- `app/` is the command line: argument parsing, the TCP JSON-RPC client,
  decoding of DarkFi's binary payloads, the darkfi calls whose results the
  library decides on (call-forest integrity, the timestamp window's median)
  and printing.
- `tests/` exercises the library on concrete values.
