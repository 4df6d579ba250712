# hrrr_render

Reading HRRR (High Resolution Rapid Refresh) weather model data, verified
with Verus.

- `src/` is the verified library: GRIB2 message parsing (sections 0 to 7,
  Lambert Conformal grids, parameter tables), unpacking of the packed
  integer codes (simple, complex with spatial differencing, the raw
  fallback for JPEG2000 data), bitmaps, the `.idx` sidecar format and
  byte-range selection, run specifications and file URLs, the field
  table, colour-table selection, the bitmap font and the integer drawing
  of the map frame. Each public function states its result in its
  contract; the `law_*` proof functions state properties that relate
  several calls.
- `app/` is the command-line program around it: downloads, caching,
  the floating-point scaling of codes into values, unit conversion,
  projection, colour ramps and map drawing, and PNG output.
- `tests/` runs the library on concrete inputs.
