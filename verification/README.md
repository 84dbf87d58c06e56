GNSS Quality Control
====================

A GNSS data context and the HTML reports built from it, written in Verus.

- `src/` is the verified library:
  - `context`: the `QcContext`, which gathers RINEX and SP3 products by
    product type (parsing RINEX files from their bytes, loading and merging
    files, navigation filters, timescale transposition, precise time
    corrections of the observations, the planetary data files);
  - `navigation`: constellations and navigation filters;
  - `report`: the SP3 and meteo report contents, the sampling summary, the
    choice of constellations and visible traces of the orbital reports, and
    the HTML of all of them (the plots themselves are drawn elsewhere);
  - `cfg`: the report configuration;
  - `external`: every call into the outside crates (`rinex`, `sp3`,
    `gnss-qc-traits`, `gnss-rs`, `anise`), each with the contract that the
    rest of the library relies on.
- `app/` holds what Verus does not see: reading files (and parsing SP3
  files, whose parser is not safe on every input), fetching planetary
  data, the floating point reference position and sampling statistics, and
  the serde / thiserror / maud glue.
- `tests/` runs the library against the real outside crates.
