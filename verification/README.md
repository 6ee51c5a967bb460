# atacc_inscription

The registration site of the ATACC tutoring association: people sign up with
their names and e-mail address, receive a link by e-mail, and confirm their
address by following it.

- `src/` is the library, verified with Verus:
  - `text`: trimming and character tests on strings;
  - `registration`: the server-side checks of a registration and its answer;
  - `store`: the decisions taken around the `users` table (register,
    re-register, verify) and a model of that table with the laws they keep;
  - `mail`: the verification link, the e-mail text and the message handed to
    the SMTP transport;
  - `verify_page`: the page answering a verification link;
  - `form`: what the browser form sends and shows;
  - `schedule`: the weekly schedule and its layout by day;
  - `config`: the configuration sections.
- `app/` is the server and the UI around it (Axum, Leptos, SQLite through
  sqlx, SMTP through lettre). The database is migrated at start-up from the
  SQL files in `./migrations`.
- `tests/` runs the library on concrete values.
