// A supervisor for batches of simulated jobs: every job draws a running time
// and a failure trigger, the supervisor gathers one completion per job in
// launch order, and the reporter turns the gathered batch into log lines.
//
// The library decides and formats; launching, sleeping and emitting are left
// to the program that embeds it.

pub mod event;
pub mod job;
pub mod random;
pub mod report;
pub mod sequences;
pub mod supervisor;
pub mod text;
