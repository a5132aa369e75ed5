// A relay for websocket messages. Clients connect, send envelopes that name a
// path, and the server calls the handler registered under that path, which may
// answer the sender, everyone else, or everyone.
//
// `ws` holds the engine: the registry of the live connections, the routing of
// outbound messages, the table of the events, the envelope codec and the state
// machine of one connection. `echo` and `benchmark` are two handlers. `json`
// states what is taken on trust from `serde_json`; `ws::channel` does the same
// for the outbound queues and the websocket messages.
pub mod benchmark;
pub mod echo;
pub mod json;
pub mod ws;
