//! Capability-based access-control core of a microkernel.
//!
//! Kernel objects — capability tables, threads, page tables, memory frames and
//! notification endpoints — are named by fixed-width capability words. This
//! crate defines the word's bit-level encoding (`cap`), the fixed-capacity
//! slot table that stores capabilities (`cnode`), and the registration point
//! for the kind-dispatched teardown handler that runs when a non-derived
//! capability is freed (`free_callback`).

pub mod cap;
pub mod cnode;
pub mod free_callback;
