# siminau_rpc

The RPC protocol of the siminau projects: MessagePack-RPC, except that the
method of a request or a notification is an integer code instead of a string.

The library in `src/` is verified with Verus:

- `value`: MessagePack values, and their mathematical view.
- `rpccore`: messages (arrays of 3 or 4 items whose first item is the message
  type), the typed request, response and notification messages, the checks
  that turn a message into one of them, and the code enums.
- `message`: the protocol's message kinds; `message::v1` holds the version 1
  request and response builders, file kinds, file ids, open modes and stat
  records.
- `codegen`: what the derives of code, data kind and message enums decide.
- `future`, `server`: the decisions of reading until a read would block, and
  of a server that accepts connections until told to shut down.
- `proto::msgpack`: reading MessagePack bytes back into values and messages
  (through `rmp-serde`), and the errors met there.
- `util`, `text`: name checks and the rendering of error texts.

`app/` holds the I/O around it: MessagePack encoding with
`rmpv` and `rmp-serde`, the `futures` future and the `tokio-core` server.
