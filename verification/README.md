# student_management

A console program that keeps the records of a school's students (faculties,
statuses, study programs, students) in an SQLite database, with a verified
library at its core.

- `src/` is the library, verified with Verus: the parsing of numbers and dates,
  the checks run on what the user types in (dates, phone numbers against a
  configurable pattern, e-mail addresses against a configurable domain), the
  business rules and their changes, the menus whose choices carry no data, and
  the filling of `${key}$` templates (the certificate of a student's status).
  Regular expressions are those of the `regex` crate, called through a few
  trusted functions in `src/regex_support.rs`.
- `app/` is the program around it: the console, the database (`rusqlite`),
  import and export of data (`serde_json`, `quick-xml`), dates (`chrono`).
- `tests/` runs the library on concrete values.
