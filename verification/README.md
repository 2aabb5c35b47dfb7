# doctorate_manager

The back end of a doctorate-examination platform (accounts, virtual
platforms, sessions, correction of papers, themes), split in two:

- `src/` is the verified library. It holds the records of the platform
  (`model`), the role check that guards every operation and the login
  decision (`authentication`), the content and lifetime of login tokens
  (`jwt`), and what the operations compute between their database calls
  (`apis`): generated passwords, what a professor may see of a correction,
  placements and themes as they are shown, rankings, the judgement of a
  write by the rows it touched, which roles each group of operations
  admits, and how an answer follows from the role check and the outcome of
  the work (each handler in `app/` chooses its own statuses).
- `app/` is the web server around it: actix-web handlers, SQL through sqlx,
  token signing through jsonwebtoken, mail through lettre, and serde copies
  of the library's records.

`tests/` exercises the library on concrete values.
