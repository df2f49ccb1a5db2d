# openlibrary

CLI that downloads the [Open Library data dumps](https://openlibrary.org/developers/dumps)
and imports them into PostgreSQL, on top of a library whose logic is verified
with Verus.

## The library (`src/`)

| Module     | What it holds |
|------------|---------------|
| `text`     | character-level searching, trimming and comparing |
| `number`   | decimal numbers, written and read |
| `outside`  | contracts of the functions of other crates that are called |
| `json`     | JSON values |
| `model`    | lenient reading of author, work and edition records |
| `slug`     | URL slugs: how they are made, and why numbered ones never collide |
| `scan`     | dump lines to staging rows, and what is dropped and counted |
| `dump`     | dump types, file names, URLs |
| `download` | what to fetch, how to resume, what a response means |
| `schema`   | tables and indexes, which to create and to drop |
| `sql`      | the statements of an import |
| `statements` | what the statements of an import leave in place |
| `import`   | the steps of an import, merging, and finding the dump files |

Functions named `law_…` state what holds of the library as a whole.

## The program (`app/`)

`app/` carries out what the library decides: it reads the command line and the
environment, talks to the servers, the file system and the database, and parses
JSON with serde.

```sh
# Download the latest authors/works/editions dumps into ./data (~20 GB total).
# Downloads resume if interrupted and skip files that are already complete.
openlibrary download

# A specific dump date, from archive.org.
openlibrary download --archive --date 2026-01-31

# Import everything into postgres (creates the tables; the database must exist).
openlibrary import

# Reimport a single dump type. Authors and works are refreshed, not added.
openlibrary import --only authors

# Up to 200k good-quality editions (published 1950+, with cover images and a
# work reference), plus only the works and authors they reference.
openlibrary import --dev
```
