# rustcord

The verified core of a small Discord client that is exposed to Python.

`src/` is the library, checked by Verus:

- `route`: rate-limit route keys (query dropped, path normalised the way
  Discord groups requests into buckets).
- `bucket`, `limiter`, `tables`: rate-limit buckets, kept in a `dashmap`
  map, and what each response does to them.
- `request`: the decisions of one request (waits, retries on 429, when to
  give up, error messages); `cache`: cached `GET` bodies.
- `json`, `models`: lenient decoding of the API objects and their text forms.
- `voice`: voice connections and the audio player's playback states.
- `client`: endpoint URLs, the authorization header, message bodies and the
  gateway URL fallback.
- `laws`, `route_laws`: properties that span several functions, proved.

`app/` holds the Python bindings (`pyo3`), the HTTP client (`reqwest`) and
the async runtime (`tokio`); it performs the I/O and asks the library what to
do. `tests/` runs the library on concrete values.
