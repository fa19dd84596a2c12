# wfs2map

Verified library behind three small tools: a map-tile server that renders WFS
layers through MapServer, an energy-monitor desktop application, and the warm
S3 backend of a storage service.

- `src/mapfile.rs`: the MapServer map file written for each tile request, with
  the request's timestamp in decimal; proofs that the decimal rendering reads
  back to the timestamp and that distinct timestamps give distinct map files.
- `src/server.rs`: the Swagger page and the check of the tile source's scheme.
- `src/energy.rs`: the greeting, the simulated distance sensor and the demo
  toggle of the energy monitor.
- `src/transition.rs`: the bucket-location cache, the transition client and the
  warm backend's construction.
- `app/`: the axum server, the desktop commands and the asynchronous removal
  task, which do the I/O and call the library for every decision.

`app/energy.rs` calls `tauri` and `tauri-plugin-shell`, which are not in
`Cargo.toml`: with them the dependency set grows past the package limit of
the build, so `app/` does not type-check on that module.
