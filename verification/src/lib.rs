//! Deterministic decision logic of the SO-101 conformance test bench.
//!
//! Floating-point joint values never enter this crate: frames, intents and
//! traces carry them as opaque type parameters, and every verdict that
//! depends on their values arrives here as a plain boolean fact.
pub mod units;
pub mod contracts;
pub mod safety;
pub mod clock;
pub mod gate;
pub mod text;
pub mod reference;
pub mod summary;
pub mod run_summary;
pub mod digest;
pub mod scenario;
pub mod evidence;
pub mod harness;
pub mod turn;
pub mod expectations;
pub mod compare;
pub mod replay;
pub mod timing;
