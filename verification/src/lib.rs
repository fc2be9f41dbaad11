//! Verified demonstrations of core language constructs.
//!
//! Each module holds one small, self-contained demonstration: shadowed
//! variables and string building, checked arithmetic, vectors and slices,
//! association maps, double-ended queues, tuples, structs and enums, and a
//! timed traversal of a large sequence. Every function carries a contract
//! that pins down exactly what it returns, so the demonstrations are not
//! merely run but proved.

pub mod arith;
pub mod maps;
pub mod numbers;
pub mod queue;
pub mod report;
pub mod slices;
pub mod text;
pub mod traversal;
pub mod tuples;
pub mod types;
pub mod vector;
