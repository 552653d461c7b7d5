//! Static analysis over an already-parsed syntax tree: discovers
//! function-like constructs and reports, for each, a resolved name, the
//! source span of its body, and a McCabe-style cyclomatic complexity with a
//! per-construct breakdown.
#![verifier::loop_isolation(false)]

pub mod tree;
pub mod analysis;
