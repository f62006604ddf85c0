# wasm_works

A small web-application firewall, verified with Verus.

- `src/` is the verified library: the filtering constraints and their
  bincode encoding (`constraints`), the expression functions that header
  constraints call (`expr`), the logged HTTP exchange (`exchange`), the control
  plane's services (`control`), the proxy-wasm filter's contexts (`filter`) and
  the singleton service that relays constraints and logs over gRPC
  (`singleton`). `text` holds the std text operations it relies on.
- `app/` is the host side: proxy-wasm trait impls, the `evalexpr` glue and the
  bodies of the control plane's gRPC handlers.
- `tests/` exercises the library with the real outside crates linked.
