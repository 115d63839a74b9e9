# taus

A [Tauri](https://tauri.app/) auto-update server, with its rules verified by
[Verus](https://github.com/verus-lang/verus).

- `src/` is the verified library:
  - `models.rs`: semantic versions (`SemVer`), update versions (`Version`,
    either `LATEST` or a semantic version), targets, mappings, configuration;
    parsing and the text forms in which they are stored and sent.
  - `crud.rs`: which stored row a lookup returns, and how recording a mapping
    moves its target's latest version.
  - `tauri.rs`: the answer to a client asking for an update.
  - `github.rs`: reading release tags, matching release assets to targets,
    and deciding which mappings a set of GitHub releases calls for.
  - `laws.rs`: properties that span several functions (text round trips,
    discovery creating each mapping once, only for the one matching target,
    nothing without targets, and nothing again once its mappings exist even
    after the targets' latest versions moved; updates only offered for
    another version).
  - `semver_calls.rs`, `regex_calls.rs`: the calls into `semver` and `regex`.
  - `text.rs`: decimal rendering of integers.
- `app/` is the server itself: the Rocket routes, the SQLite queries through
  Diesel, the GitHub requests through reqwest, and the serde forms.
- `tests/` exercises the library.

The server expects the tables of `app/schema.rs`, where a target has a
`latest` version and a mapping a `download_url`.
