//! Verified core of a single-threaded completion-ring proactor: the ticket
//! protocol that correlates kernel completions with their awaiters, the
//! draining of completion batches, and the decisions of the park and submit
//! loops.
pub mod completion;
pub mod ticket;
pub mod drain;
pub mod reactor;
