# stack_nails

The decision-making core of the Rust on Nails platform tools, verified with
Verus: the `nails`/`stack` command line, the Kubernetes operator that
reconciles `StackApp` resources, and the generator of the marketing and
documentation site.

## Layout

- `src/` — the verified library.
  - `text`: string operations with specifications (finding, replacing,
    splitting into lines, decimal numbers).
  - `status`, `secret`: the status report (the Cloudflare quick-tunnel URL
    found in the logs, the fields of Kubernetes secrets).
  - `reconcile`, `namespace`, `init`, `cleanup`, `finalizer`: what the
    operator and the installer do, as plans of steps and state machines.
  - `oauth2_proxy`, `nginx`, `cloudflare`, `observability`, `keycloak`,
    `workload`, `crd`, `cli`, `error`: the settings and manifests of each
    service.
  - `site`, `routes`, `nails_docs`, `nails_blog`, `stack_docs`, `counter`:
    the pages of the static site and the browser-side counter.
- `tests/` — tests of the library on concrete values.
- `app/` — the program around the library: argument parsing, calls to the
  Kubernetes API, file output, the development server and the browser
  bindings.
