# kube request builder, verified

Builds the HTTP requests of the Kubernetes API for one resource type: the
collection path (`/api` or `/apis`, the `apiVersion`, the namespace, the plural
of the kind), the query string of each verb, parameter validation, and the
`http::Request` itself. The library's functions in `src/` are verified with
Verus against contracts over the path and query they produce. The calls into
`url`, `http` and `String::push` are made by small `#[verifier::external_body]`
wrappers in `src/form.rs`, `src/wire.rs` and `src/text.rs`, whose contracts are
trusted, not proved.

- `src/resource.rs`: `TypeInfo`, `Request` and its request methods.
- `src/params.rs`: `ListParams`, `PostParams`, `PatchParams`, `Patch`, their
  checks and query pairs.
- `src/plural.rs`: plural names of kinds.
- `src/form.rs`: query strings through `url::form_urlencoded::Serializer`.
- `src/wire.rs`: `http::Request` construction through the `http` builder.
- `src/text.rs`: character-level string helpers.
- `src/laws.rs`: properties that hold for every input.
- `app/lib.rs`: serde serialization of delete options and typed patches, which
  then go to the verified builder as bytes.
