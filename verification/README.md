# clip_sync_repair

Verified decision, geometry, naming and policy logic for repairing audio gaps between two copies of
the same programme, and for describing each gap in a numeric "fingerprint" corpus.

## Layout

- `src/` — the library, verified with Verus:
  - `mux_bitrate` — the mux audio bitrate policy: parsing, formatting, resolution.
  - `fit_routing` — which fit candidates screen as terminal or are accepted without the grid.
  - `gap_equivalence` — the media-absolute block grid and the plain tiling used for occupancy.
  - `contract` — the `_contract` metadata a metric group carries, and the shipped contract table.
  - `schema` — the corpus enums and their wire tags, dual-fit rescue eligibility, and the bracket
    list a stored gate summary is re-synthesized into.
  - `source_id` — the FNV-1a identity digest of a decoded source.
  - `lag_sweep` — the integer geometry of a per-shoulder lag sweep.
  - `corpus` — per-gap file stems, the fields a projected corpus declares unmeasured, provenance.
  - `gap_listen` — the decisions of a listening export: selections, frame windows, post-patch action.
  - `text` — character-level helpers (decimal rendering and parsing, trimming, lower-casing).
- `app/` — the unverified shell: serde wire forms of the corpus types with conversions both ways,
  the error type, and the floating-point helpers (seconds to frames, correlation verdicts, ranking
  orders, silence cross-check).
- `tests/` — tests of the library.
