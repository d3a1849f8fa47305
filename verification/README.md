# nomad_drain

Draining of Nomad client nodes when an AWS Auto Scaling group terminates their
instances, with the logic verified by Verus.

## Layout

- `src/` — the verified library.
  - `nomad.rs`: the Nomad API client, its requests (node details, node list,
    eligibility, drain) and the reading of blocking-query indexes.
  - `search.rs`: the search for the node of an AWS instance, as a state machine
    that says which request to send next.
  - `drain.rs`: the drain of a node and its monitoring by blocking queries, as a
    state machine.
  - `vault.rs`: Vault responses, the AWS IAM login request and the request to the
    Nomad secrets engine.
  - `aws.rs`: the signed STS `GetCallerIdentity` payload for the Vault AWS IAM
    login.
  - `lambda.rs`: the configuration of the Lambda and the plans it derives (which
    tokens to get, which instance to drain).
  - `http.rs`, `text.rs`, `error.rs`: requests as plain values, decimal text, errors.
- `app/` — the Lambda: reads the environment and the event, sends the requests
  that the library describes and hands the replies back to it.
- `tests/` — tests of the library.

The library never performs I/O itself: each operation that talks to Nomad or
Vault returns the request to send, and a step function takes the reply. Their
contracts state the requests exactly and what each reply leads to.
