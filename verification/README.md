# protin

The core of a paste service, verified with Verus.

- `src/` — the verified library: configuration assembly (`config`), decimal
  integer text (`decimal`), rate-limit arithmetic and client keys
  (`ratelimiter`), paste records, keys and cleanup verdicts (`paste`),
  object-store answers (`storage`), the `x-api-key` header (`headers`) and the
  route decisions (`routes`).
- `app/` — the service around it: environment, database (diesel), object
  store (aws-sdk-s3), and the actix-web server.
- `tests/` — tests of the library.
