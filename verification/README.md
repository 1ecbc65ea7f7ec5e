# fastrust

A FastAPI-inspired web framework for building APIs in Rust, on top of Axum,
with automatic OpenAPI 3.0 documentation and a Swagger UI page.

## Layout

- `src/` is the verified library (Verus):
  - `path`: canonical HTTP paths (slashes collapsed, trailing slashes removed)
    and the laws they obey (idempotence, trailing and doubled slashes).
  - `router`, `route`, `route_config`: the route table. Routers hold routes
    under a prefix; each route carries its method, its canonical path, its
    handler (a type parameter) and its OpenAPI operation.
  - `json`, `schema`, `extractor`, `openapi`, `responses`, `converter`: the
    OpenAPI model and how it is built from the JSON schemas of handler
    extractors and of configured responses.
  - `app`: application settings, the OpenAPI document of all routers (one
    item per path, last route per method wins), the bind address and the
    Swagger UI page.
  - `document_json`, `json_text`: the document as OpenAPI JSON, its text,
    and the specification string as `openapiv3` and `serde_json` print it.
  - `index_map`: the ordered maps of the model, held in `indexmap::IndexMap`.
- `app/` is the program around it: Axum handlers and extractor inspection,
  JSON schemas from `schemars`, logging middleware and the server.
- `tests/` exercises the library on concrete values.
