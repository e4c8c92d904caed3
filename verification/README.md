# fern

Fern's library: the logic behind a command line that runs robotics
simulations on Runpod Pods, written in Verus with its behaviour stated in
`requires`/`ensures` contracts and proved.

- `src/config.rs` resolves the Runpod credential (account key before pod
  key, blank keys ignored) and the API base (a trailing `/` added, HTTPS
  required except on local test hosts).
- `src/profile.rs` builds the Drone Sim stack deployment, with its ordered
  GPU fallback list and container environment.
- `src/provider/` holds the provider-neutral types and the Runpod specifics:
  the create-pod request, status normalisation, error-body reading, endpoint
  URLs and the authorization header.
- `src/deploy.rs` is the guard that creates a billable pod only when asked
  to with `--yes`.
- `src/env_vars.rs`, `src/text.rs`, `src/api_url.rs` and `src/error.rs`
  hold the environment map, the character-level text operations, parsed URLs
  and the error type.

`app/` is the `fern` binary: argument parsing, environment loading, the HTTP
client and JSON output, with serde copies of the library's types.
