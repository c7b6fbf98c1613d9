//! Verified message building and state transitions for the headstash
//! deployment contracts: the wasm-blob store (`glob`), the ICA owner that
//! drives a headstash deployment on Secret Network (`ica_owner`) and the
//! headstash circuit board (`circuitboard`).
use vstd::prelude::*;

pub mod proto;
pub mod text;
pub mod msg;
pub mod keyed;
pub mod codec;
pub mod ownership;
pub mod commands;
pub mod glob;
pub mod ica_owner;
pub mod circuitboard;

verus! {

} // verus!
