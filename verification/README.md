# decide

Ask Jev, TypeSafe's System One model, for a typed decision, and get JSON a shell script
can branch on. One state, a set of typed questions (`noul`, `choice`, `score`), one JSON
response.

The library is written in Verus: its functions carry contracts that Verus proves, and the
laws the program keeps are stated and proved as proof functions. JSON text is read and
written by `serde_json`, called from `src/json.rs` through a few trusted wrappers whose
contracts name what it gives back.

## Layout

| Path | Holds |
|---|---|
| `src/cli.rs` | the invocation as plain values |
| `src/input.rs` | where the state, the model, the base URL, the document, and the shorthand questions come from |
| `src/wire.rs` | the request document (read strictly), the request, the response (read tolerantly), the model list |
| `src/round_trip.rs` | a document is sent as written, and a request body reads back as the document |
| `src/report.rs` | `--select`, `--value`, `--field`, and how one value prints |
| `src/client.rs` | one attempt, how its outcome is classified, the retry policy and its loop |
| `src/config.rs` | the credential: the environment, a named file, or the store `auth set` writes |
| `src/error.rs` | the one error type, its exit code, and its message |
| `src/json.rs`, `src/text.rs` | JSON values, the `serde_json` reader and writers, and the text facts the messages are built from |
| `src/host.rs` | what a run asks of the machine: files, the environment, the network, the clock |
| `src/lib.rs` | `run`, which works out what to print and writes it once |
| `app/` | the binary: the clap parser, and the host that uses `ureq`, `rpassword`, and the file system |
| `tests/` | the behaviour, with an in-memory host |

The library never touches a stream, a file, the network, or the environment itself. It is
verified for every answer a host can give, so nothing it states rests on what the host
returns.
