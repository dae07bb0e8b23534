//! Three single-threaded memory-management primitives: a copy-in/copy-out
//! mutable container, a manually reference-counted shared-ownership pointer,
//! and a dynamically checked borrow-arbitration container. Each operation
//! carries a contract describing exactly how it moves the relevant state
//! machine, and the aliasing disciplines the primitives enforce are proved
//! rather than asserted.

pub mod cell;
pub mod rc;
pub mod refcell;
