# migrador

Copies scanned documents from the MySQL table `tbl_docDigitalizados` into the
MongoDB collection of the same name, and back-fills payment dates and content
sizes in MongoDB.

- `src/` is the verified library:
  - `configuration`: the configuration check and variable lookup.
  - `menu`: the interactive menu as a state machine, with its laws.
  - `services::migrar`: the migration run as a state machine (insert, mark,
    log, per row), with its laws.
  - `services::migrar_date`, `services::migrar_size_date`: the updates that
    record payment dates and content sizes, and the per-document decisions.
  - `models::documento`: the row types and the MongoDB document layout.
- `app/` is the program: environment, terminal, MySQL and MongoDB access,
  driving the verified machines.
- `tests/` exercises the library on concrete values.
