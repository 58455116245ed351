pub mod config;
pub mod headers;
pub mod lifecycle;
pub mod models;
pub mod queue;
pub mod recurrence;
pub mod rest;
pub mod seqs;
pub mod websocket;
pub mod worker;
