# qlogin

Logging in to QQ and Qzone, by a QR code or through a browser window, as a verified library.

- `src/` decides and remembers: which logins are under way, what each answer of the login service
  leads to, which addresses and cookies are trusted, and what the user is told. Every function is
  proved against its contract with Verus. `src/laws.rs` and the functions named `law_..` state what
  holds over several operations.
- `app/` performs: it sends the requests, opens the windows and offers the commands of the desktop
  application. It holds one state behind a lock and calls the library for every step.
- `tests/` runs the library on concrete values, with the crates that it calls.

What the library believes of other crates without proof stands in the functions marked
`#[verifier::external_body]`, each with a comment that names the function it calls:

| crate | used for |
| --- | --- |
| `base64` | images as `data:` addresses |
| `encoding_rs` | answers in GB18030 |
| `reqwest` | the cookie jar of a login, and the client that is carried with it |
| `url` | reading, joining and extending addresses |
| `uuid` | random names |
