# Math Circle Board

A small service for volunteer facilitators of private math circles: sessions,
open problems, learner attempts with strategy tags and images, and a private
owner-only board.

`src/` is the verified library (Verus). It holds the rules of the board:

- `text`: Unicode-whitespace trimming, label limits, substring tests.
- `dates`: real calendar dates written `YYYY-MM-DD`.
- `hashing`: the salted, iterated SHA-256 hash of owner setup codes, hex, random codes.
- `images`: which uploads are accepted (JPEG, PNG, WebP that decode).
- `failure`: every refusal with its HTTP status and message.
- `auth`: bearer tokens, token headers, Entra claims, key refresh, ownership.
- `requests`: the checks of setup, learners, sessions, problems, attempts, uploads.
- `json`, `export`: strategy tags as JSON, attachments as Base64.
- `service`: rate-limit answers, asset caching, database opening and schema, port.
- `clock`: the current Unix time.

`app/main.rs` is the HTTP server around it (axum, SQLite through sqlx, Entra
sign-in through reqwest and jsonwebtoken). `tests/` exercises the library.
