//! State, rules and screen contents of a terminal viewer for AWS CodeBuild runs and CloudWatch logs.
//!
//! The library decides; the program around it reads files, runs the `aws` command line tool, opens
//! the browser and paints the terminal.

pub mod app;
pub mod channel;
pub mod codebuild;
pub mod config;
pub mod event_loop;
pub mod laws;
pub mod log_tail;
pub mod report;
pub mod text;
pub mod ui;
