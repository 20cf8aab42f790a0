# backend

The verified core of an account and user-profile backend served over HTTP
and backed by a CouchDB document store.

- `src/` is the library, checked by Verus: error classification from the store
  up to HTTP statuses, JSON selectors and find queries, entity updates, the
  sign-up / login / password decisions, access tokens, the domain-to-app
  cache, the requests sent to the text-message services and the storage
  service, and the QR-code check of a greyscale image.
- `app/` is the HTTP server around it (Rocket routes, request guards, the
  document store, text messages, reading image files).
- `tests/` runs the library against the real outside crates.
