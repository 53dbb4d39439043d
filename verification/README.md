# rust_app

An account service (sign-up, login, e-mail check, a guard for protected
routes) whose request-handling rules are verified with Verus.

- `src/` — the verified rules: `error` (the error model and how each error is
  answered), `handler` (login, sign-up, e-mail check), `password` (the bcrypt
  calls), `auth` (the authentication guard, step by step), `http_body` (answer
  types and the JSON texts the guard and handlers build), `cli`, `mailer`.
- `app/` — the actix-web server around them: routing, database queries, mail
  delivery, web tokens, and the turning of rule results into HTTP responses.
- `tests/` — tests of the rules on concrete values.
