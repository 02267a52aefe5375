//! The control-plane bridge between an interactive UI surface, driven only
//! from its own thread, and a long-running backend worker. The pieces here
//! are the bidirectional message protocol and its JSON wire codec, the
//! bounded FIFO command mailbox with its backpressure discipline, the
//! fire-and-forget status channel modeled as the UI thread's instruction
//! queue, the one-shot synchronous query slot for the folder choice, the
//! command interceptor with the settings notify-then-persist path, and the
//! monotonic lifecycle flag that ends the UI pump loop.

pub mod codec;
pub mod decode;
pub mod encode;
pub mod gui;
pub mod lifecycle;
pub mod mailbox;
pub mod protocol;
pub mod query;
pub mod settings;
