# admission-webhook

A Kubernetes admission webhook for the `Doge` custom resource
(`app.demo/v1alpha1`), whose rules are verified with Verus.

- The mutating webhook gives every `Doge` the default image where it names
  none, and sets its number to the default.
- The validating webhook refuses updates that rename a `Doge` or change its
  image.

Layout:

- `src/` — the verified library: the domain model (`domain`), the custom
  resource (`crd`), the objects and admission reviews the webhook exchanges
  with the API server (`object`, `admission`, `patch`), the rules of both
  webhooks and their handlers (`web::controller::admission::v1`), and the JSON
  envelope of the web layer (`web::response`, `web::error`).
- `app/` — the program: command line, tracing, the HTTPS server, and the
  conversions between JSON and the library's values.
- `tests/` — tests of the library.
