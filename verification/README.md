# tsproxy-operator

A Kubernetes operator that makes a service lead to a Tailscale proxy, and gives the service
back when the proxy fails or the replacement is removed.

- `src/` is the verified core. A reconcile is a state machine: it asks for one action at a
  time, and each event that comes back decides the next. What it does after each event is
  stated in `transitions.rs`; what holds of every reconcile is proved in `runs.rs`,
  `provisioning.rs`, `switching.rs`, `restoring.rs`, `success.rs`, `ending.rs` and
  `locality.rs`. Requests for Tailscale auth keys are handled the same way, in
  `tailscale_api.rs` and `key_runs.rs`.
- `tests/` runs the core on concrete values.
- `app/` is the program around it: arguments, the cluster, HTTP.

What is taken on trust: that `reqwest::StatusCode::is_success` means 200 to 299, and how Rust
writes a string in debug format. Timestamps, field managers, and the parts of services and
deployments that the operator does not read are carried along unread.
