# destinypedia

A client library for the MediaWiki API of destinypedia.com, and the rules of
`destiny_fetch`, a tool that mirrors the wiki's images in a local SQLite
database to search and download them.

- `src/request`: the parameters of API requests (`ParamsBuilder`, `PARAMS`,
  the `query` action and its generators), kept as a JSON object with sorted keys.
- `src/response`: the results of `query` responses and their continuations.
- `src/prebuilt`: ready-made parameters for common lookups.
- `src/fetch`: the tool's arguments, database rows, SQL searches, download
  planning, sync decisions, prompts and cache.
- `src/models`: the simple query model with its validity rule.
- `src/text`: string operations with specifications over `Seq<char>`.
- `app/`: the `destiny_fetch` program: command line, HTTP, SQLite, prompts
  and files, driving the library.

Every function of `src/` is verified with Verus against its contract; the
calls into chrono, sqlx, serde_json and std that the library makes stand
behind small trusted wrappers whose contracts are documented where they are
declared.
