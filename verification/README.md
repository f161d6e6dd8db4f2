# spinlet

Runs WASI command components ("spinlets") as plugins of `spin`, each in a
sandbox that its manifest describes.

- `src/` is the verified library. It decides what a plugin is given — its
  standard streams, arguments, environment variables and preopened
  directories — from its manifest or capabilities, where configuration,
  manifests and binaries live, which plugins hook into a command, and what
  an alias runs. Opening paths and reading the host environment are left to
  the caller, which hands back the outcomes; the library returns a
  `WasiSetup` that lists exactly what to build the WASI context with.
- `app/` is the `spin let` program: it reads files and the environment,
  opens directories, builds the context with `wasmtime-wasi`, and runs the
  component with `wasmtime`.
- `tests/` exercise the library on concrete values.
