# communities

Records and decisions of a small community service: communities, the
memberships that tie members to them, and invites.

- `src/` is the verified library (Verus). `store` holds timestamps,
  database errors and the two calls that give new rows their identity
  (a random version-4 UUID, the current time). `community`, `membership`
  and `invite` hold the records and what each repository operation
  answers for each outcome of its statements; the operations that need
  several statements (creating a community with its owner's membership
  in one transaction, updating a community or a membership) are state
  machines. `handlers` holds the access rules of the HTTP routes (only
  members reach a community, only the owner reaches a membership) and the
  response each outcome gets.
- `app/` runs those machines against SQLite with sqlx and serves them
  with actix-web.
- `tests/` exercises the library on concrete values.
