# swiss-weather-mcp

A JSON-RPC 2.0 MCP server over stdio for Swiss weather, pollen, radiation and
UV data (MeteoSwiss open data, Copernicus CAMS). The decisions and the data
handling are a Verus-verified library; a thin program around it does the
input and output.

## Layout

- `src/` — the verified library
  - `mcp_engine.rs`: protocol types, request routing, tool results, the tool
    catalog
  - `csv_table.rs`: `;`-separated tables (read with the `csv` crate), line
    endings, records and their fields
  - `stations.rs`: measurement layers, URLs, the station filter and the
    station order
  - `forecast.rs`: forecast asset names and their selection, compact dates,
    forecast points and their resolution, series and timelines, derived
    metrics
  - `cams.rs`: the plain-text CAMS feature info answer
  - `text.rs`, `order.rs`: text helpers and a stable two-key ordering, with
    their specifications
  - `laws.rs`: properties of the library as a whole, proved
- `tests/` — tests of the library on concrete values
- `app/` — the server: stdin/stdout, HTTP requests, JSON building and the
  floating-point summaries

Verify with Verus on `src/lib.rs`; build and test with Cargo.
