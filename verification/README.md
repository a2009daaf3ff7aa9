# symdex_store

The store of a code index: what is known of repositories, files, symbols, calls and tests is kept
in SQLite, and the vectors of their chunks in sqlite-vec. `src/` is the logic of the store, written
in Verus and proved; `app/` is the part that touches the database, the network, files and the clock.

The library never does I/O. Each operation is one of these:

- a statement to run, with the values bound to it (`SqliteStore::find_symbols`);
- a list of commands to run in order, whose answers go to the next step of the operation
  (`FileReplacement::start`, `FileReplacement::finish`);
- a decision on the rows that came back (`SqliteStore::decide_quality_activation`).

The contracts say which statement is run with which values, in which order and in which
transaction, which rows can be read and which column is at fault where one cannot, and what is
decided. Ids that are digests of parts are arguments: the library gives the parts
(`SqliteStore::chunk_embedding_id`), the caller gives the digest.

## Modules

| Module | What it holds |
| --- | --- |
| `text`, `numbers`, `sql`, `error`, `records`, `rows`, `store` | text and its order, whole numbers as floating-point ones, statements and rows, failures, records and how they are read |
| `config`, `lease`, `layers`, `naming`, `freshness`, `coverage` | configuration, the writer lease, names and small decisions |
| `repository`, `facts`, `watchers`, `runs` | repositories and refs, the facts of files, watchers, index runs |
| `generations`, `recording`, `quality` | semantic generations, what recording one again keeps, their layers, and the jobs of the quality layer |
| `search`, `call_paths`, `call_path_laws`, `context` | searches, chains of calls, context packs |
| `summaries`, `questions`, `health`, `outline`, `resolution` | what is told about a repository |
| `schema` | the schema and its migrations |
| `vector`, `qdrant` | vector points in sqlite-vec and in Qdrant |
| `round_trips`, `transactions` | what a read gives back of a write, and what is stored as a whole |

Floating-point numbers are held by their bits (`sql::Real`). Two calls are trusted:
`zerocopy::IntoBytes::as_bytes` (`vector::vector_bytes`) and `String::push` (`text`).

## app/

`app::store::SqliteStore` and `app::vector::SqliteVectorStore` run the statements on rusqlite,
`app::qdrant::QdrantClient` sends the requests, `app::lease::WriterLease` holds the lock file.
The application that embeds them supplies the function that digests parts into a stable id, and
the one that registers the sqlite-vec extension.
