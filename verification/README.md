# ucx

A universal compute exchange: jobs come in over HTTP, go to GPU providers, and leave
receipts. The rules of the exchange are a library verified with Verus; a thin service
around it does the input and output.

## Layout

- `src/` is the verified library.
  - `text`, `json`, `float64`, `clock`, `digest`, `http`: values and what is computed on
    them; `float_order` shows that rounding keeps order. Doubles are carried as bit patterns, and the little arithmetic that billing
    and sizing need is done on integers, with the rounding of IEEE 754.
  - `job`, `provider`, `receipt`: what is exchanged.
  - `capability_token`: signed tokens that last an hour.
  - `oci_runner`, `runpod_serverless`, `runpod_pod`, `marketplace`, `mint_allowlist`: the
    exchanges with containers and services, one function for each request and one for
    what became of it.
  - `server`: how requests are read and answered.
- `tests/` runs the library, with the crates it calls.
- `app/` is the service: configuration, HTTP in both directions, container processes.

## What is proved

Every function says what it returns for every input. Beyond that, functions named
`law_..` state what holds of several of them together: a minted token lets its bearer in
until it expires and not after, whatever its agent and tool are called, and where a key
is configured nobody gets in without a token that it signed; a receipt's canonical text
identifies it, and stamping does not change its hash; a serverless job gets a receipt
upon completion and not before; jobs without GPU work are reported to nobody; a job
that a provider took stays known and others are untouched; any time that was used is
charged for, and more of it costs no less.

## What is trusted

The contracts of a few wrappers around `chrono`, `sha2`, `hmac`, `hex`, `uuid`,
`serde_json`, `reqwest` and `String::from_utf8_lossy`, each with a comment that says what
is claimed.
