# grpc_server

The server side of a gRPC call, verified with Verus.

A request that the gRPC core reports is accepted (`src/context.rs`), its handler looked up
(`src/server.rs`) and called (`src/execute.rs`). The handler gets the request, or the stream of
requests (`src/stream.rs`), and a sink for the response (`src/unary_sink.rs`,
`src/stream_sink.rs`).

The library does no input or output. What is to be done on a call is written down, in order, in
the call (`src/call.rs`). What is to be awaited is asked for one batch at a time, and the outcome
handed back (`src/poll.rs`). What holds of a call as a whole stands in `src/laws.rs`: it is ended
once, with the status that was set last; the status batch is not polled again once it has
finished; and so on.

`app/` performs the operations on the core and offers the results as futures, streams and sinks.
