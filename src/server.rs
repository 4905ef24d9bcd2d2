//! The judge service as offered over RPC.
use vstd::prelude::*;

verus! {

/// The RPC judge service. It holds no state: each request carries what it
/// needs.
#[derive(Debug, Default)]
pub struct MyJudger {}

} // verus!
