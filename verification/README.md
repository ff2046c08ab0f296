# jsonrpc-v2

A small JSON-RPC 2.0 server library, written in Rust and verified with Verus.

- `src/` is the library. It reads and writes request and response objects, finds the handler for a
  method, says what is to be answered, and finds the arguments of a handler. Everything in it is
  verified against its contracts; `src/laws.rs` states what holds of the server as a whole.
- `app/` runs asynchronous handlers around the library and serves HTTP requests with `hyper`.
- `tests/` runs the library on concrete values.

JSON values are read and written with `serde_json`, data are kept by type in a `type_map`, bytes can
come in as `bytes`, and Rust source is parsed with `syn`. What is relied on of these crates stands at
the functions in `src/json.rs`, `src/data.rs`, `src/request.rs` and `src/method.rs` that call them.

A server is built with `Server::new`, `with_data` and `with_method`:

```rust
let server = Server::new()
    .with_data(Data::new(String::from("Hello!")))
    .with_method("message", message)
    .finish();
```

- A request without an id is a notification, and is never answered.
- A request with an id is answered once, with the same id.
- Several requests can be sent as an array. The answers come in the order in which the handlers
  finish, followed by an error for each element that is no request object.
