# edu_academy

The rules of an online learning platform (accounts and sign-in, a course
catalogue with lessons and enrolments, articles with comments, certificates
of completion), written in Verus with their contracts proved.

- `src/` is the verified library. `auth` opens accounts and signs users in,
  `catalog` and `admin` answer the catalogue's requests, `certificates` issues
  certificates, `setup` prepares the default administrator, `client` reads the
  service's replies in the browser client. `rows` reads stored rows back into
  records, `text` builds UUID, decimal and JSON text, `token` builds and signs
  sign-in tokens. `clock`, `ids` and `password` hold the trusted calls into
  `chrono`, `uuid` and `bcrypt`. `tables` describes the stored tables and what
  the service's queries read from them. `laws` proves properties that span
  several operations, such as that an account signs in with the password it
  was opened with, or that addresses and names stay unique.
- `app/` is the HTTP service (axum and SQLite through sqlx) and the browser
  client's pages (leptos): it runs the queries and hands their results to the
  library, which decides what to store and what to answer.
- `tests/` runs the library on concrete values.
