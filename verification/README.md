# rsri_projects

Two small course-management web services, `course` and `voltron`, whose
request logic is verified with Verus.

- `src/` is the verified library. For each service, `store` holds the
  database as plain rows and says what each write does to it, `queries`
  finds rows (filters and joins), `services` decides each request: its answer
  and the writes it asks for, and `laws` proves what requests achieve
  together (a registered user can log in, only instructors create courses,
  a roster adds each missing user once and enrolls every listed user, a
  password reset lets the user sign in with the new password, ...).
- `app/` is the web layer: Rocket handlers, cookies, templates, and the
  Postgres database through Diesel. Each handler reads the tables, asks the
  library, and performs the writes it returns.
- `tests/` runs the library on concrete databases.
