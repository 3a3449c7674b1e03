# operator

A Kubernetes operator for Named Data Networking (NDN) overlays, built around
a library whose logic is proved with Verus.

- `src/` is the verified library: the custom resources as plain data, the
  owned objects a `Network` creates (RBAC, the router DaemonSet, face
  Services), router and neighbor bookkeeping, certificate issuance and
  renewal decisions, the pod injector's patch planning, the router pod's
  `ndnd` configuration, and the condition lists every resource reports.
  Each public function states in `ensures` what it returns; the `law_*`
  proof functions state what holds across calls (for example, that a
  condition written is the one read back, or that an injected pod keeps
  its own volumes).
- `app/` is the program around it: the kube-rs controllers, the admission
  webhook, the router pod's init and watch containers, and the serde copies
  of the custom resources.
- `tests/` runs the library on concrete values.

Dates, `ndnd`'s output and the Kubernetes API stay outside the proofs: the
library calls `chrono` through a few trusted wrappers in `src/clock.rs`, and
the controllers hand it what they read from the cluster.
