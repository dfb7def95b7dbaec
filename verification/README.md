# rocket_rest_quickstart

A REST API for climbing problems and the users who create them, built on
Rocket and Postgres. The rules of the API stand in `src/` and are proved
with Verus; `app/` is the server around them.

- `src/decimal.rs`: the decimal text of user ids, read and written, with the
  proof that reading back what was written gives the same id.
- `src/auth.rs`: the `user_id` cookie that signs a user in, and the
  authentication of requests from it.
- `src/form.rs`, `src/models/`: the records, the forms and their rules, and
  the Argon2 password hash.
- `src/routes/`: what each endpoint answers, given what its database query
  returned.
- `src/config.rs`, `src/configuration.rs`, `src/startup.rs`: the settings
  the server starts with and the endpoints it mounts.
- `app/`: reads the environment, runs the queries with Diesel, and serves
  the endpoints with Rocket.
