# jlh_maps

The verified core of a map application's tooling: OSM attribute parsing and the
database enum encodings, tile addressing, the terrain mesh topology, the planning of
satellite-image ingestion and the stitching of parent tiles, tiled image reading, the
routing of the web page's commands to the map views, and the small stores (feature
tiles, instance command queues, the file-read cache) that the map front end keeps.

- `src/` — the library, written in Verus; every function carries its contract.
- `tests/` — executable tests of the library.
- `app/` — ordinary Rust around the library: file and database plumbing, the
  floating-point geometry, and conversions from the `shapefile`, `geo-types`, `image`
  and `postgres-types` crates.
