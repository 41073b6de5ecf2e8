# provider_presets

Built-in presets for third-party model providers (GLM, Kimi, MiniMax, OpenAI,
OpenRouter, LongCat): their defaults, their model catalogs, and the rules that fill a
user's model and provider settings from them and from the providers' model-list APIs.

- `src/` is the library, verified with Verus. `text` and `sanitize` hold the string
  rules, `effort` the reasoning-effort levels, `config` the settings types, `index_map`
  the trusted view of `indexmap::IndexMap`, `preset`, `catalog` and `lookup` the preset
  data and catalog lookup, `defaults` and `discovery` the filling and merging rules,
  `laws` the properties proved across them, and `catalog_laws` those proved of the
  built-in catalogs.
- `app/` holds what stays outside: environment variables, HTTP requests, JSON
  decoding, worker threads and logging.
- `tests/` runs the library on concrete cases.
