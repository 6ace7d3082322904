# community_web

The backend of a small research community site: discussion threads with
nested comments, researcher cards built from Google Scholar profiles, and
accounts with e-mail verification and Redis-backed sessions.

- `src/` is the library, verified with Verus. It holds the reply-log format
  (type-length-value frames appended to a thread's `reply_data`), snowflake
  reply ids, decimal text of ids, the keys and writes of the session and user
  caches, the pending-registration store, and the decision each endpoint takes
  on what it read (which status to answer, what to write next).
- `app/` is the Rocket server around it: routes, PostgreSQL through Diesel,
  Redis, the Google Scholar HTTP client, SMTP, and the serde/bincode encodings
  of the library's records.
- `tests/` exercises the library on concrete values.
