//! The execution core of an online judge: a sandbox driver that plans the
//! jailer's commands and reads its reports, a verdict classifier, a box-id
//! allocator, and the decisions of the workers that pull jobs from a
//! durable queue.
pub mod box_id;
pub mod classify;
pub mod config;
pub mod metadata;
pub mod model;
pub mod sandbox;
pub mod text;
pub mod worker;
