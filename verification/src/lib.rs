//! An agent-based simulation kernel: many concurrently scheduled agents
//! submit operations to one serialized execution environment, receive
//! per-caller results, and observe a consistently ordered broadcast of the
//! events each operation emits.
//!
//! The kernel itself is deterministic and verified; the surrounding
//! transport (threads, channels, async tasks) lives outside this crate's
//! verified core and drives it step by step.


pub mod behaviors;
pub mod environment;
pub mod events;
pub mod ledger;
pub mod math;
pub mod machine;
pub mod messager;
pub mod types;
pub mod world;
