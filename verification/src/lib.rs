//! Window-message dispatch and cross-thread marshaling engine for a GUI
//! windowing layer whose substrate delivers all UI events through a single
//! serialized message queue per thread.
//!
//! The library owns the decisions of that engine: the two per-window handler
//! registries with their overwrite/accumulate semantics, the layout
//! redistribution arithmetic, the exactly-once transfer of cross-thread
//! payloads, and the retrieve/route/dispatch rules of the main loop. The
//! blocking calls of the windowing substrate itself (message retrieval,
//! translation, window creation) are performed by the embedder, which feeds
//! their outcomes into these verified decision functions.

pub mod handle;
pub mod error;
pub mod msg;
pub mod events;
pub mod geom;
pub mod layout;
pub mod cross_thread;
pub mod base;
pub mod main_loop;
pub mod label;
pub mod pbm;
