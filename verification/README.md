# spark_catalog

The catalog of a Spark Connect session, verified with Verus.

- `src/command.rs`: the catalog requests (`CatType` and the table-creation
  messages) and their models, with strings taken by their characters.
- `src/catalog.rs`: `Catalog`, which builds each request from its arguments,
  and the steps of table creation (reading the default data source first
  where none is named).
- `src/reply.rs`: reading a reply's Arrow record batch as one boolean.
- `src/laws.rs`: properties that span the functions above.
- `app/lib.rs`: the asynchronous calls, which send each request through a
  session and read its reply.
