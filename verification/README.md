# smolvm_auth

Bearer-token authentication for an HTTP API: a request carries a JSON Web
Token, the token is verified with a key that its issuer publishes as a JSON Web
Key Set, and whoever is refused is answered with status 401 and a challenge.

`src/` is a Verus library. Every decision stands there, with a contract:

- `bearer`: reading the token out of the `Authorization` header
- `algorithm`: signature algorithms and their names
- `jwk`: making published keys ready to verify tokens
- `auth`: the settings, the key cache, and when it has to be fetched again
- `middleware`: the steps from a header to verified claims
- `api_error`, `error`: errors and the replies they turn into
- `outside`: the calls into other crates, and what is trusted of them
- `text`: small string operations

`app/` is the axum side: it fetches keys, holds the cache behind a lock, and
sends replies.

Times in the library are nanoseconds on a clock that never goes back. The
expiry of tokens goes by the wall clock, which decoding a token reads itself.
