# evgl_libs

Reusable event cross-posting logic, verified with Verus.

- `src/` is the verified library: the event envelope and domain model with
  their validation rules, a JSON document model, the provider SDK types and
  response checks, each provider adapter's request planning and reply
  handling, webhook endpoint rules and signing, and the token vault that
  seals serialized token sets with AES-256-GCM.  Calls into `url`, `chrono`,
  `base64`, `hex`, `hmac`/`sha2`, `aes-gcm` and `rand` stand behind small
  trusted wrappers whose contracts are stated in `web.rs`, `datetime.rs`,
  `encoding.rs` and `crypto.rs`.
- `app/` is the runtime around it: serde wire types, secrets, the async
  `ProviderAdapter` trait and the HTTP adapters built on `reqwest`, and the
  vault over whole token sets.
- `tests/` exercises the library on concrete values.
