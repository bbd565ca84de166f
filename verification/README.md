# zero2prod

A newsletter service whose decisions are verified with Verus.

- `src/` is the verified library: subscriber names and e-mail addresses,
  idempotency keys, the HTML pages and redirects of the handlers, and the
  delivery of a newsletter issue as a state machine driven by send results,
  with a store that records, per user and idempotency key, who has been
  served and whether the publication went through, so that repeats are
  answered from the store and retries send only to those not yet served.
  `unicode-segmentation` (grapheme counting) and `validator` (e-mail
  validation) are called through two trusted wrappers.
- `app/` is the actix-web server: sessions, flash-message cookies, the
  Postgres queries, the e-mail client and telemetry. It holds the publication
  store behind an async mutex for the whole of a publication request. It converts requests into
  the library's plain values and the library's replies into HTTP responses.
- `tests/` exercises the library on concrete values.
