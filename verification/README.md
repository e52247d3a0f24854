# lekta_api

The back end of Lekta, a platform for tutoring centres: workspaces and their
members, channels and messages, classes, assignments, question banks and exams,
tutor profiles and ratings, tuition payments through Paystack, file storage on
S3, push notifications and a background job queue.

## Layout

- `src/` is the library, verified with Verus. Each request handler's decisions
  live here as functions from plain values (the caller's role, the rows the
  handler read, the request) to a result or a refusal, with contracts that say
  which refusal comes on which input. Around them stand the request validators,
  the configuration reader, the token and signature checks, password hashes,
  answer grading, the storage key rules, and the job queue's retry and
  scheduling rules. Laws that
  relate several functions (a refresh token is good once; a webhook event is
  settled once; an edit is allowed only within a day) are public proof
  functions named `law_*`.
- `app/` is the server: the HTTP routes, the database queries, the cache, the
  clients of Paystack, S3 and Firebase, and the worker and scheduler loops. It
  reads what the library needs, calls the library, and carries out its answer.
- `tests/` runs the library on concrete values.
