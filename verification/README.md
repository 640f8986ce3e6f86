# airlinepro

The Oragrick Airline management console, with its decision logic verified by
Verus.

- `src/` — the verified library: text normalisation (`text`), the console's
  menus (`menus`), administrator and passenger authentication with bcrypt and
  the login-attempt limit (`login`), ticket numbers (`tickets`), random
  identifiers (`ids`), bookings (`booking`), flights (`flights`), staff
  records (`staff`) and field-by-field editing (`edits`).
- `app/` — the interactive program: prompts, the SQLite database (sqlx) and
  the menu loops, which hand every decision to the library.
- `tests/` — tests of the library on concrete values.
