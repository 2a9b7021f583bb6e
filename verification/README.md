# sol_atlas

The verified core of the Sol Atlas globe: an interactive atlas of the
planetary energy transition that shows real (observed or curated) data
side by side with clearly marked scenario fiction.

- `src/` is the library, written in Verus and proved: data layers and their
  provenance, the layer dock and its whispers, the transition timeline,
  the civilization schedule (milestones, secular cycle, colonies),
  confluence binning of real data into H3 cells, globe mesh topology and
  the starfield's random-number stream, trade pairing, and the GLSL shader sources.
  Its laws (for example that confluence never bins scenario data, that
  toggling a layer twice restores the set, that built infrastructure
  stays built) are public proof functions beside the code they speak of.
- `app/` is a small command-line report around the library: it reads the
  JSON and GeoJSON datasets, locates entities in H3 cells, does the
  floating-point geometry and economics, and prints what the globe would
  show for a given year.
- `tests/` exercises the library on concrete values.
