# dfc-node

A node for DFC: it registers with a coordinator, takes on matches, runs each of them in two
gladiator containers, and reports the results. What the node decides is a library that is
verified with Verus; the program around it talks to the network, the container daemon and the
system.

## Layout

- `src/` is the library. Each long-running activity of the node is a function, or a small state
  machine, from what happened to what has to be done next, with its behaviour in its contract.
  - `config`: the configuration file, its defaults and the environment that overrides it
  - `auth`: the wallet with its address and signatures, base58, and the token with its expiry
  - `api`: requests to the coordinator, their retries and what their replies mean
  - `docker`: how a container is set up, spawned, watched and removed
  - `slots`, `assignments`, `match_run`: how many matches run, polling for them, and one match
    from its first container to its report
  - `heartbeat`, `node`: heartbeats, refreshing the token, and what the node says of itself
  - `types`, `text`, `clock`: messages, characters and time
- `app/` is the program: arguments, files, HTTP, containers, signals, and the metrics, which are
  floating point.
- `tests/` runs the library.

## What is stated

Beside the contracts, proof functions marked as laws state what holds across functions: that the
node never runs more matches than it may, that every container that was created is removed and
every match gives its slot back and reports once, that a shutdown finishes the current matches, that a post is sent at most three times, that
the token is refreshed before it expires, and that containers can be told apart by their names.

What is taken on trust are the calls into `bs58`, `ed25519-dalek` and `serde_json`; the comments
on them, in `src/auth`, say what is claimed.

## Running

```
dfc-node --config config.toml
```

`DFC_COORDINATOR_URL`, `DFC_WALLET_KEYPAIR` and `DFC_DOCKER_IMAGE` override the configuration
file; `DFC_REGION` is the region that the node reports. With `--beta` the node runs with a
wallet of its own making.
