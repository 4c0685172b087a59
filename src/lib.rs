//! A worker loop that claims jobs from a shared store, supervises each to a
//! single recorded outcome, and stops on request or when its budget is spent;
//! with the artifact, word and memory-page helpers that the workers use.

pub mod fault;
pub mod run_loop;
pub mod guarantees;
pub mod contracts;
pub mod words;
pub mod memory_dump;
pub mod vm_pages;
pub mod system_contracts;
