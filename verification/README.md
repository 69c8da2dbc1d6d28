# glauncher_auth

Signs a player in to Minecraft with their Microsoft account, by the device-code
flow: Microsoft, Xbox Live, XSTS, Minecraft.

- `src/` is the library, verified with Verus. It builds every request, reads
  every reply and decides what comes next, without any I/O. The messages for the
  user are in French.
- `app/` puts the network around it: it sends the requests with `reqwest`, turns
  JSON into values with `serde`, and reads the environment.
- `tests/` runs the library on concrete replies.

| module        | what it holds                                                  |
|---------------|----------------------------------------------------------------|
| `client`      | which application signs in, and the addresses of the services  |
| `tokens`      | the device code, polling for the tokens, renewing them         |
| `exchange`    | the four requests after that, and what each status decides     |
| `xbox`        | the answers of Xbox Live, XSTS and Minecraft                   |
| `session`     | the order of the exchanges, and the session they end in        |
| `credentials` | what is kept of a sign-in                                      |
| `clock`       | the clock, and how long a token is good                        |
| `identity`    | the UUID of a profile                                          |
| `laws`        | what holds of the library as a whole                           |

What is believed without proof: what `str::trim`, `uuid::Uuid::parse_str` and
the `Display` of `reqwest::StatusCode` return. Nothing is believed of the clock.
