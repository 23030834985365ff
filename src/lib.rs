//! A safe layer over the Coqui STT native speech-to-text engine.
//!
//! The library holds what can be decided without touching native memory:
//! the translation of native status codes into [`Error`], the checks on
//! strings handed to the engine and on text handed back, the life cycle of
//! a streaming session, and the protocol of the worker that confines a
//! stream to one thread.
pub mod confinement;
pub mod errors;
pub mod model;
pub mod stream;
pub mod text;

pub use confinement::{Client, ClientOp, ClientPhase, Worker, WorkerAction, WorkerEvent, WorkerPhase};
pub use errors::{check_status, Error, Result};
pub use model::{handle_from_native, output_from_native, Model};
pub use stream::{Stream, StreamOp, StreamPhase};
pub use text::{nul_terminated, text_from_native, transcript_text};
