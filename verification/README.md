# zero2prod_newsletter

An email newsletter service. The library (`src/`) holds what the service
decides, proved with Verus:

- `name_rules`, `unicode`: when a subscriber's name is acceptable (not blank,
  no forbidden character, a bounded number of grapheme clusters);
- `domain`: validated subscriber names, whose type invariant is that rule;
- `routes`: the decisions of the `/subscriptions` and `/subscriptions/confirm`
  handlers (pending and active row statuses, the confirmation link and
  email) and the statuses they answer with;
- `email_client`: the body of a request to the email delivery service.

`app/` is the HTTP server (actix-web), the Postgres queries (sqlx) and the
HTTP client of the delivery service (reqwest); it asks the library what to do.
