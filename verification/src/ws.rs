// The engine. Nothing here waits or does I/O: the caller accepts connections,
// reads frames, drains the outbound queues and holds the lock around the
// registry; what to do with what it read is decided here.
pub mod channel;
pub mod event;
pub mod registry;
pub mod session;
pub mod socket;
pub mod ws_error;
pub mod ws_io;
