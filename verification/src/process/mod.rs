//! Processes: auxv records, CPU sets, membarrier commands, limits and priorities.
pub mod auxv;
pub mod cpu_set;
pub mod membarrier;
pub mod priority;
